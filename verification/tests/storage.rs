use poulpe::config::flash::{check_written, write_needed, FlashCheckError, FlashData};
use poulpe::config::{DYNAMIXEL_DEFAULT_ID, N_AXIS};
use poulpe::registers::{
    register_get_size, register_read_by_address, register_read_by_name,
    register_write_by_address, register_write_by_name, AccessType, Register,
};
use poulpe::storage::{id_from_stored_byte, Addr, USER_DATA_ADDR};

fn map() -> [Register<u8>; 3] {
    [
        Register { name: 0, address: 0, byte_size: 1, access_type: AccessType::ReadOnly },
        Register { name: 1, address: 1, byte_size: 2, access_type: AccessType::ReadWrite },
        Register { name: 2, address: 3, byte_size: 1, access_type: AccessType::WriteOnly },
    ]
}

#[test]
fn register_sizes() {
    let m = map();
    assert_eq!(register_get_size(&m, 0), 1);
    assert_eq!(register_get_size(&m, 1), 2);
}

#[test]
fn read_by_name_copies_the_register_words() {
    let m = map();
    let storage = [10u8, 11, 12, 13, 14, 15, 16, 17];
    let mut buffer = [0u8; 6];
    assert_eq!(register_read_by_name(&m, 1, 2, &storage, &mut buffer), Ok(4));
    assert_eq!(buffer, [12, 13, 14, 15, 0, 0]);
    assert_eq!(register_read_by_name(&m, 0, 2, &storage, &mut buffer), Ok(2));
    assert_eq!(&buffer[0..2], &[10, 11]);
}

#[test]
fn read_by_name_refuses_write_only_and_short_buffers() {
    let m = map();
    let storage = [1u8; 8];
    let mut buffer = [0u8; 3];
    assert_eq!(register_read_by_name(&m, 2, 2, &storage, &mut buffer), Err(()));
    assert_eq!(register_read_by_name(&m, 1, 2, &storage, &mut buffer), Err(()));
    assert_eq!(buffer, [0, 0, 0]);
}

#[test]
fn write_by_name_and_read_back() {
    let m = map();
    let mut storage = [0u8; 8];
    assert_eq!(register_write_by_name(&m, 1, 2, &mut storage, &[1, 2, 3, 4]), Ok(()));
    assert_eq!(storage, [0, 0, 1, 2, 3, 4, 0, 0]);
    let mut buffer = [0u8; 4];
    assert_eq!(register_read_by_name(&m, 1, 2, &storage, &mut buffer), Ok(4));
    assert_eq!(buffer, [1, 2, 3, 4]);
}

#[test]
fn write_by_name_refuses_read_only_and_wrong_sizes() {
    let m = map();
    let mut storage = [0u8; 8];
    assert_eq!(register_write_by_name(&m, 0, 2, &mut storage, &[1, 2]), Err(()));
    assert_eq!(register_write_by_name(&m, 1, 2, &mut storage, &[1, 2, 3]), Err(()));
    assert_eq!(storage, [0u8; 8]);
}

#[test]
fn read_by_address_starts_at_a_register() {
    let m = map();
    let storage = [10u8, 11, 12, 13, 14, 15, 16, 17];
    let mut buffer = [0u8; 4];
    assert_eq!(register_read_by_address(&m, 2, &storage, 2, 2, &mut buffer), Ok(()));
    assert_eq!(buffer, [12, 13, 14, 15]);
    let mut buffer = [0u8; 4];
    assert_eq!(register_read_by_address(&m, 2, &storage, 3, 2, &mut buffer), Err(()));
    assert_eq!(buffer, [0, 0, 0, 0]);
    assert_eq!(register_read_by_address(&m, 2, &storage, 0, 1, &mut buffer), Ok(()));
    assert_eq!(&buffer[0..2], &[10, 11]);
}

#[test]
fn write_by_address_writes_from_the_register_start() {
    let m = map();
    let mut storage = [0u8; 8];
    assert_eq!(register_write_by_address(&m, 2, &mut storage, 2, 1, &[7, 8]), Ok(()));
    assert_eq!(storage, [0, 0, 7, 8, 0, 0, 0, 0]);
    assert_eq!(register_write_by_address(&m, 2, &mut storage, 4, 1, &[9, 9, 9, 9]), Ok(()));
    assert_eq!(storage, [0, 0, 9, 9, 9, 9, 0, 0]);
    assert_eq!(register_write_by_address(&m, 2, &mut storage, 0, 1, &[5, 5]), Ok(()));
    assert_eq!(&storage[0..2], &[5, 5]);
    assert_eq!(register_write_by_address(&m, 2, &mut storage, 8, 1, &[1, 1]), Err(()));
}

#[test]
fn stored_board_id() {
    assert_eq!(USER_DATA_ADDR, 0x8_0000);
    assert_eq!(Addr::Id.offset(), 0);
    assert_eq!(Addr::Id.flash_address(), USER_DATA_ADDR);
    assert_eq!(id_from_stored_byte(5), 5);
    assert_eq!(id_from_stored_byte(0), 0);
    assert_eq!(id_from_stored_byte(0xFF), DYNAMIXEL_DEFAULT_ID);
    assert_eq!(DYNAMIXEL_DEFAULT_ID, 42);
    assert_eq!(N_AXIS, 3);
}

fn record(id: u8, offsets: [f32; 3]) -> FlashData {
    FlashData { board_id: id, sensor_offsets: offsets.map(|o| o.to_bits()) }
}

#[test]
fn flash_record_image() {
    let d = record(3, [1.5, -2.0, 0.0]);
    let bytes = d.to_bytes();
    assert_eq!(bytes[0], 3);
    assert_eq!(&bytes[1..5], &1.5f32.to_le_bytes());
    assert_eq!(&bytes[5..9], &(-2.0f32).to_le_bytes());
    assert_eq!(&bytes[9..13], &0.0f32.to_le_bytes());
    assert!(bytes[13..].iter().all(|b| *b == 0));
}

#[test]
fn flash_record_reads_back() {
    let d = record(7, [0.125, 3.25, -1.0e6]);
    let back = FlashData::from_bytes(d.to_bytes());
    assert_eq!(back.board_id, 7);
    assert_eq!(back.sensor_offsets, d.sensor_offsets);
    let nan = FlashData { board_id: 1, sensor_offsets: [f32::NAN.to_bits(), 0, 0] };
    assert_eq!(FlashData::from_bytes(nan.to_bytes()).sensor_offsets, nan.sensor_offsets);
}

#[test]
fn flash_records_compare_as_floats() {
    assert!(record(1, [1.0, 2.0, 3.0]) == record(1, [1.0, 2.0, 3.0]));
    assert!(record(1, [1.0, 2.0, 3.0]) != record(2, [1.0, 2.0, 3.0]));
    assert!(record(1, [0.0, 2.0, 3.0]) == record(1, [-0.0, 2.0, 3.0]));
    let nan = record(1, [f32::NAN, 2.0, 3.0]);
    assert!(nan != nan);
}

#[test]
fn lazy_write_decisions() {
    let stored = record(1, [1.0, 2.0, 3.0]);
    assert!(!write_needed(&stored, &record(1, [1.0, 2.0, 3.0])));
    assert!(write_needed(&stored, &record(1, [1.0, 2.0, 4.0])));
    let nan = record(1, [f32::NAN, 2.0, 3.0]);
    assert!(write_needed(&nan, &nan));
    assert_eq!(check_written(&stored, &stored), Ok(()));
    assert_eq!(check_written(&stored, &record(9, [1.0, 2.0, 3.0])), Err(FlashCheckError::Prog));
}
