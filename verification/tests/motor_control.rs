use poulpe::motor_control::board_state::{
    BoardStatus as OrbitaStatus, HomingError, MotorError, OrbitaState,
};
use poulpe::motor_control::driver::{drv8316_frame, tmc6200_frame};
use poulpe::motor_control::homing::{
    detection_zone_left, hall_indices, hall_word_scannable, motor_moved_enough, moved_index,
    MIN_CHECK_MOVEMENT,
};
use poulpe::motor_control::foc::{
    adc_raw_pair, flux_target_value, lower_i16, lower_u16, mode_register_value,
    motion_mode_of_register, reply_value, tmc4671_frame, torque_flux_limit_value,
    torque_target_value, upper_i16, upper_u16, uq_ud_limit_value, MotionMode,
};
use poulpe::motor_control::poulpe_state::{
    BoardStatus, HomingErrorFlag, MotorErrorFlag, PoulpeState,
};
use poulpe::motor_control::supervision::{
    communication_status, emergency_stop_tick, EMERGENCY_STOP_RESPONSE_TICKS,
};
use poulpe::motor_control::sensors::{
    ad5047_decode, aksim_decode, hall_diff, hall_inputs_word, IOError, CRC_SPI_97_64bit,
    CRC8_LUT,
};

#[test]
fn motion_mode_codes() {
    for v in 0u8..16 {
        let m = MotionMode::from_u8(v).unwrap();
        assert_eq!(m.to_u8(), v);
    }
    assert_eq!(MotionMode::from_u8(1), Some(MotionMode::Torque));
    assert_eq!(MotionMode::from_u8(3), Some(MotionMode::Position));
    assert_eq!(MotionMode::from_u8(16), None);
    assert_eq!(MotionMode::from_u8(255), None);
}

#[test]
fn tmc4671_datagrams() {
    assert_eq!(tmc4671_frame(true, 0x1C, 0x0102_0304), [0x9C, 1, 2, 3, 4]);
    assert_eq!(tmc4671_frame(false, 0x1C, 0x0102_0304), [0x1C, 0, 0, 0, 0]);
}

#[test]
fn tmc4671_written_value_reads_back() {
    for v in [0u32, 1, 0xDEAD_BEEF, u32::MAX] {
        let f = tmc4671_frame(true, 0x63, v);
        assert_eq!(reply_value(f), v);
        assert_eq!(f[0] & 0x7F, 0x63);
    }
    assert_eq!(reply_value([0, 0x12, 0x34, 0x56, 0x78]), 0x1234_5678);
}

#[test]
fn register_halves() {
    assert_eq!(lower_i16(0x0001_FFFF), -1);
    assert_eq!(upper_i16(0xFFFE_0000), -2);
    assert_eq!(upper_i16(0x7FFF_0000), i16::MAX);
    assert_eq!(lower_u16(0x1234_5678), 0x5678);
    assert_eq!(upper_u16(0x1234_5678), 0x1234);
    assert_eq!(adc_raw_pair(0x1234_5678), (0x5678, 0x1234));
}

#[test]
fn mode_register_updates_low_byte_only() {
    assert_eq!(mode_register_value(0xABCD_EF05, MotionMode::Torque), 0xABCD_EF01);
    assert_eq!(mode_register_value(0, MotionMode::PmwIPosition), 15);
    assert_eq!(motion_mode_of_register(0x0000_0102), MotionMode::Velocity);
    assert_eq!(motion_mode_of_register(0x0000_0020), MotionMode::Stopped);
}

#[test]
fn torque_and_flux_targets() {
    assert_eq!(torque_target_value(0x1234_5678, -1), 0xFFFF_5678);
    assert_eq!(torque_target_value(0x1234_5678, 2), 0x0002_5678);
    assert_eq!(flux_target_value(0x1234_5678, 7), 0x1234_0007);
    assert_eq!(flux_target_value(0x1234_5678, -1), 0xFFFF_FFFF);
    let w = torque_target_value(0x0000_0003, -300);
    assert_eq!(upper_i16(w), -300);
    assert_eq!(lower_i16(w), 3);
    let w = flux_target_value(w, 42);
    assert_eq!(upper_i16(w), -300);
    assert_eq!(lower_i16(w), 42);
}

#[test]
fn negative_flux_target_overwrites_the_torque_half() {
    let w = flux_target_value(torque_target_value(0, 5), -2);
    assert_eq!(lower_i16(w), -2);
    assert_eq!(upper_i16(w), -1);
}

#[test]
fn limit_registers_keep_fifteen_bits() {
    assert_eq!(uq_ud_limit_value(-1), 0x7FFF);
    assert_eq!(uq_ud_limit_value(31000), 31000);
    assert_eq!(torque_flux_limit_value(0xFFFF), 0x7FFF);
    assert_eq!(torque_flux_limit_value(0x1234), 0x1234);
}

#[test]
fn tmc6200_datagrams() {
    assert_eq!(tmc6200_frame(true, 0x01, 0x1234_5678), [0x81, 0x12, 0x34, 0x56, 0x78]);
    assert_eq!(tmc6200_frame(false, 0x01, 0x1234_5678), [0x01, 0x12, 0x34, 0x56, 0x78]);
    assert_eq!(reply_value(tmc6200_frame(true, 0x0A, 77)), 77);
}

#[test]
fn drv8316_datagrams_have_even_parity() {
    assert_eq!(drv8316_frame(true, 0x03, 0x55), [0x06, 0x55]);
    assert_eq!(drv8316_frame(true, 0x01, 0x01), [0x02, 0x01]);
    assert_eq!(drv8316_frame(true, 0x01, 0x00), [0x03, 0x00]);
    assert_eq!(drv8316_frame(false, 0x02, 0xFF), [0x84, 0x00]);
    for addr in 0u8..64 {
        for data in [0u8, 1, 0x80, 0xFF, 0x5A] {
            for write in [true, false] {
                let f = drv8316_frame(write, addr, data);
                let ones = f[0].count_ones() + f[1].count_ones();
                assert_eq!(ones % 2, 0);
            }
        }
    }
}

#[test]
fn crc_of_ring_encoder() {
    assert_eq!(CRC_SPI_97_64bit(0), 0);
    assert_eq!(CRC_SPI_97_64bit(1), CRC8_LUT[1]);
    assert_eq!(CRC8_LUT[1], 0x97);
    assert_eq!(CRC_SPI_97_64bit(0x0100), CRC8_LUT[CRC8_LUT[1] as usize]);
}

fn aksim_word(position: u32, flags: u8) -> [u8; 4] {
    let upper: u32 = (position << 13) | ((flags as u32) << 8);
    let crc = !CRC_SPI_97_64bit((upper >> 8) as u64);
    (upper | crc as u32).to_be_bytes()
}

#[test]
fn ring_encoder_valid_word_gives_position() {
    assert_eq!(aksim_decode(aksim_word(0x1_2345, 0x02)), Ok(0x1_2345));
    assert_eq!(aksim_decode(aksim_word(0, 0x03)), Ok(0));
    assert_eq!(aksim_decode(aksim_word(0x7_FFFF, 0x1F)), Ok(0x7_FFFF));
}

#[test]
fn ring_encoder_error_bit_or_crc_rejects() {
    assert_eq!(aksim_decode(aksim_word(0x1_2345, 0x00)), Err(IOError::InvalidData));
    let mut w = aksim_word(0x1_2345, 0x02);
    w[3] ^= 0x10;
    assert_eq!(aksim_decode(w), Err(IOError::InvalidData));
}

#[test]
fn centre_encoder_parity() {
    assert_eq!(ad5047_decode([0x00, 0x03]), Ok(3));
    assert_eq!(ad5047_decode([0xC0, 0x00]), Ok(0));
    assert_eq!(ad5047_decode([0x3F, 0xFF]), Ok(0x3FFF));
    assert_eq!(ad5047_decode([0x00, 0x01]), Err(IOError::InvalidData));
    assert_eq!(ad5047_decode([0x80, 0x00]), Err(IOError::InvalidData));
}

#[test]
fn hall_difference_is_shortest_step() {
    assert_eq!(hall_diff(3, 1), 2);
    assert_eq!(hall_diff(1, 15), 2);
    assert_eq!(hall_diff(15, 1), -2);
    assert_eq!(hall_diff(8, 0), -8);
    assert_eq!(hall_diff(0, 8), -8);
    assert_eq!(hall_diff(5, 5), 0);
    for a in 0u8..16 {
        for b in 0u8..16 {
            let d = hall_diff(a, b);
            assert!((-8..=7).contains(&d));
            assert_eq!((b as i16 + d).rem_euclid(16), a as i16);
        }
    }
}

#[test]
fn hall_inputs_are_combined_low_then_high() {
    assert_eq!(hall_inputs_word(0x34, 0x12), 0x1234);
    assert_eq!(hall_inputs_word(0xFF, 0x00), 0x00FF);
}

#[test]
fn poulpe_state_lifecycle() {
    let mut s = PoulpeState::new();
    assert!(s.is_unknown_state());
    assert_eq!(s.get_status(), BoardStatus::Unknown);
    s.set_init_state();
    assert!(s.is_init());
    s.set_operational_state();
    assert!(s.is_operational());
    s.set_warning_state();
    assert!(s.is_warning());
    assert!(s.is_operational());
    s.clear_warning_state();
    assert_eq!(s.get_status(), BoardStatus::Operational);
    s.set_error_state();
    assert!(s.is_runtime_error());
    assert!(s.is_error());
}

#[test]
fn poulpe_error_during_init_is_init_error() {
    let mut s = PoulpeState::new();
    s.set_init_state();
    s.set_error_state();
    assert!(s.is_init_error());
    s.set_error_state();
    assert!(s.is_runtime_error());
    s.set_warning_state();
    assert!(s.is_runtime_error());
    s.clear_warning_state();
    assert!(s.is_runtime_error());
}

#[test]
fn poulpe_status_bytes() {
    let mut s = PoulpeState::new();
    s.set_status(BoardStatus::OperationalWithWarning);
    assert_eq!(s.status_to_u8(), 8);
    s.set_status_u8(3);
    assert_eq!(s.get_status(), BoardStatus::Unknown);
    for st in [
        BoardStatus::Unknown,
        BoardStatus::Init,
        BoardStatus::InitError,
        BoardStatus::Operational,
        BoardStatus::OperationalWithWarning,
        BoardStatus::RuntimeError,
    ] {
        s.set_status(st);
        assert_eq!(s.get_status(), st);
    }
}

#[test]
fn poulpe_error_flags() {
    let mut s = PoulpeState::new();
    assert!(!s.is_motor_error(0));
    s.set_motor_error_flag(1, MotorErrorFlag::OverCurrent);
    s.set_motor_error_flag(1, MotorErrorFlag::ConfigFail);
    assert!(s.is_motor_error(1));
    assert!(s.check_motor_error_flag(1, MotorErrorFlag::OverCurrent));
    assert!(!s.check_motor_error_flag(1, MotorErrorFlag::LowBusVoltage));
    assert_eq!(s.motor_error_flags, [0, 33, 0]);
    s.clear_motor_error_flag(1, MotorErrorFlag::OverCurrent);
    assert_eq!(s.motor_error_flags, [0, 1, 0]);
    s.set_homing_error_flag(HomingErrorFlag::ZeroingFail);
    assert!(s.is_homing_error());
    assert!(s.check_homing_error_flag(HomingErrorFlag::ZeroingFail));
    s.clear_homing_error_flag(HomingErrorFlag::ZeroingFail);
    assert!(!s.is_homing_error());
    s.set_homing_error_flag(HomingErrorFlag::IndexSearchFail);
    s.clear_errors();
    assert_eq!(s.motor_error_flags, [0, 0, 0]);
    assert_eq!(s.homing_error_flags, 0);
}

#[test]
fn poulpe_error_words() {
    let mut s = PoulpeState::new();
    s.set_status(BoardStatus::Operational);
    s.set_homing_error_flag(HomingErrorFlag::AxisSensorReadFail);
    s.set_motor_error_flag(0, MotorErrorFlag::MotorAlignFail);
    s.set_motor_error_flag(1, MotorErrorFlag::CommunicationFail);
    s.set_motor_error_flag(2, MotorErrorFlag::OverTemperatureBoard);
    assert_eq!(s.error_flags_to_u32(), 0x1080_0201);
    assert_eq!(s.to_byte_array(), [4, 1, 2, 128, 16]);
}

#[test]
fn poulpe_flag_lists() {
    let mut s = PoulpeState::new();
    let none = s.get_motor_errors_flags(0);
    assert_eq!(none[0], Some(MotorErrorFlag::NoError));
    assert!(none[1..].iter().all(|e| e.is_none()));
    s.set_motor_error_flag(0, MotorErrorFlag::HighTemperatureWarning);
    s.set_motor_error_flag(0, MotorErrorFlag::CommunicationFail);
    let flags = s.get_motor_errors_flags(0);
    assert_eq!(flags[2], Some(MotorErrorFlag::HighTemperatureWarning));
    assert_eq!(flags[7], Some(MotorErrorFlag::CommunicationFail));
    assert_eq!(flags.iter().filter(|e| e.is_some()).count(), 2);
    assert_eq!(s.get_homing_error_flags()[0], Some(HomingErrorFlag::NoError));
    s.set_homing_error_flag(HomingErrorFlag::IndexSearchFail);
    s.set_homing_error_flag(HomingErrorFlag::MotorMovementCheckFail);
    let h = s.get_homing_error_flags();
    assert_eq!(h[1], Some(HomingErrorFlag::MotorMovementCheckFail));
    assert_eq!(h[4], Some(HomingErrorFlag::IndexSearchFail));
    assert_eq!(h[0], None);
    s.homing_error_flags = 0x80;
    assert!(s.get_homing_error_flags().iter().all(|e| e.is_none()));
}

#[test]
fn flag_codes_are_single_bits() {
    assert_eq!(MotorErrorFlag::NoError.to_u8(), 0);
    assert_eq!(MotorErrorFlag::ConfigFail.to_u8(), 1);
    assert_eq!(MotorErrorFlag::CommunicationFail.to_u8(), 128);
    assert_eq!(HomingErrorFlag::IndexSearchFail.to_u8(), 16);
    assert_eq!(BoardStatus::RuntimeError.to_u8(), 16);
}

#[test]
fn orbita_state_records_errors() {
    let mut s = OrbitaState::new();
    assert!(s.is_unknown());
    s.set_motor_error(0, MotorError::OverCurrent);
    s.set_homing_error(HomingError::ZeroingFail);
    assert!(s.is_motor_error(0, MotorError::OverCurrent));
    assert!(!s.is_motor_error(0, MotorError::ConfigFail));
    assert!(!s.is_motor_error(1, MotorError::OverCurrent));
    assert!(s.is_homing_error(HomingError::ZeroingFail));
    assert!(!s.is_homing_error(HomingError::IndexSearchFail));
    s.set_motor_error(0, MotorError::ConfigFail);
    assert_eq!(s.motor_errors, [17, 0, 0]);
    s.set_homing_error(HomingError::IndexSearchFail);
    assert_eq!(s.homing_error, 6);
    s.clear_errors();
    assert_eq!(s.motor_errors, [0, 0, 0]);
    assert_eq!(s.homing_error, 0);
}

#[test]
fn orbita_state_status() {
    let mut s = OrbitaState::new();
    s.set_status(OrbitaStatus::Init);
    assert!(s.is_init());
    s.set_status(OrbitaStatus::InitError);
    assert!(s.is_init_error());
    s.set_status(OrbitaStatus::Operational);
    assert!(s.is_operational());
    s.set_status(OrbitaStatus::OperationalWithWarning);
    assert!(s.is_operational_with_warning());
    assert!(!s.is_operational());
    s.set_status(OrbitaStatus::RuntimeError);
    assert!(s.is_runtime_error());
    assert_eq!(OrbitaStatus::RuntimeError.to_u8(), 16);
    assert_eq!(MotorError::CommunicationFail.to_u8(), 64);
    assert_eq!(HomingError::IndexSearchFail.to_u8(), 4);
}

#[test]
fn emergency_stop_ends_at_rest_or_after_twice_the_time() {
    assert_eq!(emergency_stop_tick(0, true), (1, false));
    assert_eq!(emergency_stop_tick(EMERGENCY_STOP_RESPONSE_TICKS - 1, true), (7000, true));
    assert_eq!(emergency_stop_tick(EMERGENCY_STOP_RESPONSE_TICKS - 1, false), (7000, false));
    assert_eq!(emergency_stop_tick(2 * EMERGENCY_STOP_RESPONSE_TICKS - 1, false), (14000, true));
    let mut counter = 0;
    let mut ticks = 0;
    loop {
        let (next, done) = emergency_stop_tick(counter, false);
        counter = next;
        ticks += 1;
        if done {
            break;
        }
    }
    assert_eq!(ticks, 14000);
}

#[test]
fn communication_outage_timer_restarts_on_new_error() {
    assert_eq!(communication_status(true, false), (true, true));
    assert_eq!(communication_status(true, true), (true, false));
    assert_eq!(communication_status(false, true), (false, false));
    assert_eq!(communication_status(false, false), (false, false));
}

#[test]
fn hall_indices_of_detecting_sensors() {
    assert_eq!(hall_indices(0xFFFF & !(1 << 5)), [5, 255, 255]);
    assert_eq!(hall_indices(0xFFFF & !(1 << 3) & !(1 << 7)), [3, 7, 255]);
    assert_eq!(hall_indices(0xFFFF & !(1 << 1) & !(1 << 4) & !(1 << 9)), [1, 4, 9]);
    assert_eq!(hall_indices(0xFFFF & !(1 << 3) & !(1 << 4)), [3, 255, 255]);
    assert_eq!(hall_indices(0x0000), [0, 255, 255]);
    assert_eq!(hall_indices(0xFFFF & !(1 << 2) & !(1 << 5) & !(1 << 6)), [2, 5, 255]);
    assert_eq!(hall_indices(0xFFFF & !1 & !(1 << 3)), [0, 3, 255]);
    assert_eq!(hall_indices(0x7FFF & !(1 << 2) & !(1 << 8)), [2, 8, 15]);
    for p in 1u16..15 {
        assert_eq!(hall_indices(0xFFFF & !(1 << p)), [p as u8, 255, 255]);
    }
}

#[test]
fn hall_words_that_cannot_be_scanned() {
    assert!(!hall_word_scannable(0xFFFF));
    assert!(!hall_word_scannable(0x7FFF));
    assert!(!hall_word_scannable(0xFFFE));
    assert!(hall_word_scannable(0xFFDF));
    assert!(hall_word_scannable(0x0000));
}

#[test]
fn index_met_while_moving() {
    assert_eq!(moved_index([3, 255, 255], [4, 255, 255]), (3, false));
    assert_eq!(moved_index([3, 255, 255], [3, 4, 255]), (4, true));
    assert_eq!(moved_index([3, 4, 255], [4, 255, 255]), (3, false));
    assert_eq!(moved_index([255, 255, 255], [6, 255, 255]), (6, true));
    assert_eq!(moved_index([3, 255, 255], [3, 255, 255]), (255, false));
}

#[test]
fn leaving_a_detection_zone() {
    assert!(detection_zone_left(0xFFF7, 0xFFFF));
    assert!(!detection_zone_left(0xFFF7, 0xFFF7));
    assert!(!detection_zone_left(0xFFF7, 0xFFE7));
    assert!(!detection_zone_left(0xFFF7, 0xFFEF));
}

#[test]
fn movement_check_threshold_and_saturation() {
    assert_eq!(MIN_CHECK_MOVEMENT, 100000);
    assert!(motor_moved_enough(0, 100000));
    assert!(!motor_moved_enough(0, 99999));
    assert!(motor_moved_enough(-50000, 50000));
    assert!(!motor_moved_enough(200000, 0));
    assert!(motor_moved_enough(i32::MIN, i32::MAX));
    assert!(!motor_moved_enough(i32::MAX, i32::MIN));
}
