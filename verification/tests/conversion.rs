use poulpe::dynamixel::conversion::{
    bool_to_bytes, bytes_to_bool, bytes_to_float_bits, bytes_to_i16, bytes_to_pid, bytes_to_u16,
    bytes_to_u32, i16_to_bytes, pid_to_bytes, put_u32_le, read_u16_le, read_u32_le, u16_to_bytes,
    u32_to_bytes, ConversionError,
};
use poulpe::motor_control::Pid;

#[test]
fn bool_bytes_roundtrip() {
    let bytes = bool_to_bytes([true, false, true]);
    assert_eq!(bytes, [1, 0, 1]);
    let back: Result<[bool; 3], ConversionError> = bytes_to_bool(&bytes);
    assert_eq!(back, Ok([true, false, true]));
}

#[test]
fn bytes_to_bool_any_nonzero_byte_is_true() {
    assert_eq!(bytes_to_bool::<3>(&[0, 1, 200]), Ok([false, true, true]));
}

#[test]
fn bytes_to_bool_rejects_wrong_length() {
    assert_eq!(bytes_to_bool::<3>(&[1, 2]), Err(ConversionError::InvalidDataLength));
    assert_eq!(bytes_to_bool::<3>(&[1, 2, 3, 4]), Err(ConversionError::InvalidDataLength));
}

#[test]
fn u32_to_bytes_is_little_endian() {
    assert_eq!(u32_to_bytes([0x1234_5678, 1]), vec![0x78, 0x56, 0x34, 0x12, 1, 0, 0, 0]);
    assert_eq!(u32_to_bytes::<0>([]), Vec::<u8>::new());
}

#[test]
fn bytes_to_u32_decodes_little_endian() {
    let bytes = [0x78, 0x56, 0x34, 0x12, 0xFF, 0xFF, 0xFF, 0xFF];
    assert_eq!(bytes_to_u32::<2>(&bytes), Ok([0x1234_5678, 0xFFFF_FFFF]));
}

#[test]
fn bytes_to_u32_rejects_wrong_length() {
    assert_eq!(bytes_to_u32::<2>(&[0; 7]), Err(ConversionError::InvalidDataLength));
    assert_eq!(bytes_to_u32::<1>(&[]), Err(ConversionError::InvalidDataLength));
}

#[test]
fn u32_values_survive_encoding() {
    for v in [0u32, 1, 0xFF, 0x100, 0xDEAD_BEEF, u32::MAX] {
        assert_eq!(bytes_to_u32::<1>(&u32_to_bytes([v])), Ok([v]));
    }
}

#[test]
fn u32_bytes_survive_decoding() {
    let bytes = [9u8, 8, 7, 6, 5, 4, 3, 2];
    let values = bytes_to_u32::<2>(&bytes).unwrap();
    assert_eq!(u32_to_bytes(values), bytes.to_vec());
}

#[test]
fn u16_encoding_and_decoding() {
    assert_eq!(u16_to_bytes([0xABCD, 0x0001]), vec![0xCD, 0xAB, 0x01, 0x00]);
    assert_eq!(bytes_to_u16::<2>(&[0xCD, 0xAB, 0x01, 0x00]), Ok([0xABCD, 1]));
    assert_eq!(bytes_to_u16::<2>(&[0xCD, 0xAB, 0x01]), Err(ConversionError::InvalidDataLength));
    for v in [0u16, 0x7FFF, 0x8000, u16::MAX] {
        assert_eq!(bytes_to_u16::<1>(&u16_to_bytes([v])), Ok([v]));
    }
}

#[test]
fn i16_encoding_is_twos_complement() {
    assert_eq!(i16_to_bytes([-2, 300]), vec![0xFE, 0xFF, 0x2C, 0x01]);
    assert_eq!(bytes_to_i16::<2>(&[0xFE, 0xFF, 0x2C, 0x01]), Ok([-2, 300]));
    assert_eq!(bytes_to_i16::<1>(&[0x00, 0x80]), Ok([i16::MIN]));
    assert_eq!(bytes_to_i16::<1>(&[0x00]), Err(ConversionError::InvalidDataLength));
}

#[test]
fn i16_values_survive_encoding() {
    for v in [i16::MIN, -1, 0, 1, i16::MAX] {
        assert_eq!(bytes_to_i16::<1>(&i16_to_bytes([v])), Ok([v]));
    }
}

#[test]
fn pid_to_bytes_packs_p_high_and_i_low() {
    assert_eq!(pid_to_bytes([Pid { p: 1, i: 2 }]), vec![2, 0, 1, 0]);
    assert_eq!(
        pid_to_bytes([Pid { p: 0x1234, i: 0x0056 }, Pid { p: 0, i: 0 }]),
        vec![0x56, 0x00, 0x34, 0x12, 0, 0, 0, 0]
    );
}

#[test]
fn pid_to_bytes_sign_extends_a_negative_integral_gain() {
    assert_eq!(pid_to_bytes([Pid { p: 5, i: -1 }]), vec![0xFF, 0xFF, 0xFF, 0xFF]);
}

#[test]
fn bytes_to_pid_keeps_fifteen_bits_of_each_gain() {
    assert_eq!(bytes_to_pid::<1>(&[2, 0, 1, 0]), Ok([Pid { p: 1, i: 2 }]));
    assert_eq!(
        bytes_to_pid::<1>(&[0xFF, 0xFF, 0xFF, 0xFF]),
        Ok([Pid { p: 0x7FFF, i: 0x7FFF }])
    );
    assert_eq!(bytes_to_pid::<1>(&[1, 2, 3]), Err(ConversionError::InvalidDataLength));
}

#[test]
fn non_negative_gains_survive_encoding() {
    for pid in [Pid { p: 0, i: 0 }, Pid { p: 100, i: 32767 }, Pid { p: 32767, i: 1 }] {
        assert_eq!(bytes_to_pid::<1>(&pid_to_bytes([pid])), Ok([pid]));
    }
}

#[test]
fn negative_gains_do_not_survive_encoding() {
    let pid = Pid { p: -1, i: 3 };
    assert_eq!(pid_to_bytes([pid]), vec![3, 0, 0xFF, 0xFF]);
    assert_eq!(bytes_to_pid::<1>(&pid_to_bytes([pid])), Ok([Pid { p: 0x7FFF, i: 3 }]));
}

#[test]
fn float_bits_are_decoded_little_endian() {
    let mut bytes = Vec::new();
    bytes.extend_from_slice(&1.5f32.to_le_bytes());
    bytes.extend_from_slice(&(-0.25f32).to_le_bytes());
    assert_eq!(
        bytes_to_float_bits::<2>(&bytes),
        Ok([1.5f32.to_bits(), (-0.25f32).to_bits()])
    );
}

#[test]
fn float_bits_refuse_a_nan() {
    let mut bytes = Vec::new();
    bytes.extend_from_slice(&1.0f32.to_le_bytes());
    bytes.extend_from_slice(&f32::NAN.to_le_bytes());
    assert_eq!(bytes_to_float_bits::<2>(&bytes), Err(ConversionError::NanReceived));
}

#[test]
fn float_bits_accept_infinities_and_zeros() {
    let mut bytes = Vec::new();
    bytes.extend_from_slice(&f32::INFINITY.to_le_bytes());
    bytes.extend_from_slice(&(-0.0f32).to_le_bytes());
    assert_eq!(
        bytes_to_float_bits::<2>(&bytes),
        Ok([f32::INFINITY.to_bits(), (-0.0f32).to_bits()])
    );
}

#[test]
fn float_bits_reject_wrong_length() {
    assert_eq!(bytes_to_float_bits::<1>(&[0, 0, 0]), Err(ConversionError::InvalidDataLength));
}

#[test]
fn little_endian_helpers() {
    let mut buffer = [0u8; 6];
    put_u32_le(&mut buffer, 1, 0x0102_0304);
    assert_eq!(buffer, [0, 4, 3, 2, 1, 0]);
    assert_eq!(read_u32_le(&buffer, 1), 0x0102_0304);
    assert_eq!(read_u16_le(&[0x34, 0x12], 0), 0x1234);
}
