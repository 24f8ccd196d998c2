use poulpe::dynamixel::dxl::{DxlCom, Error, RWAction};
use poulpe::dynamixel::packet::crc;
use poulpe::dynamixel::packet::instruction_packet::{
    reads_missing_params, InstructionPacketKind, PingPacket, ReadDataPacket, WriteDataPacket,
};
use poulpe::dynamixel::packet::status_packet::{status_frame_bytes, StatusPacket};
use poulpe::dynamixel::packet::ParsingError;
use poulpe::dynamixel::receiver::{ByteReceiver, ChunkReceiver, MAX_BUFFER_LENGTH};
use poulpe::dynamixel::register::DynamixelRegister;
use poulpe::dynamixel::v1::{DynamixelError, InstructionPacket, StatusPacket as StatusPacketV1};

/// A frame as a sender builds it: header, id, length, instruction, parameters, checksum.
fn frame(id: u8, instruction: u8, params: &[u8]) -> Vec<u8> {
    let mut body = vec![id, params.len() as u8 + 2, instruction];
    body.extend_from_slice(params);
    let sum: u32 = body.iter().map(|b| *b as u32).sum();
    let mut f = vec![0xFF, 0xFF];
    f.extend_from_slice(&body);
    f.push(!(sum as u8));
    f
}

#[test]
fn crc_is_complement_of_byte_sum() {
    assert_eq!(crc(&[1, 2, 3]), 249);
    assert_eq!(crc(&[]), 0xFF);
    assert_eq!(crc(&[0xFF, 0x01]), 0xFF);
    assert_eq!(crc(&[0x80, 0x80, 0x01]), 0xFE);
}

#[test]
fn checksummed_bytes_sum_to_255() {
    let data = [7u8, 200, 31, 255];
    let c = crc(&data);
    let sum = data.iter().fold(c, |acc, b| acc.wrapping_add(*b));
    assert_eq!(sum, 255);
}

#[test]
fn ack_status_packet_bytes() {
    assert_eq!(StatusPacket::ack(1, 0).to_bytes(), vec![0xFF, 0xFF, 0x01, 0x02, 0x00, 0xFC]);
}

#[test]
fn status_packet_with_value_bytes() {
    let sp = StatusPacket::with_value(1, 0, [0x10, 0x20]);
    assert_eq!(sp.to_bytes(), vec![0xFF, 0xFF, 0x01, 0x04, 0x00, 0x10, 0x20, 0xCA]);
}

#[test]
fn status_frame_bytes_matches_status_packet() {
    let sp = StatusPacket::with_value(7, 3, [1, 2, 3]);
    assert_eq!(status_frame_bytes(7, 3, &[1, 2, 3]), sp.to_bytes());
    let f = status_frame_bytes(9, 0, &[]);
    assert_eq!(f.len(), 6);
    assert_eq!(f[f.len() - 1], crc(&f[2..f.len() - 1]));
}

#[test]
fn parse_ping() {
    let f = frame(1, 1, &[]);
    assert_eq!(f, vec![0xFF, 0xFF, 1, 2, 1, 251]);
    assert!(matches!(
        InstructionPacketKind::parse(&f, 1),
        Ok(InstructionPacketKind::Ping(PingPacket { id: 1 }))
    ));
}

#[test]
fn parse_read_data() {
    let f = frame(3, 2, &[50, 12]);
    assert!(matches!(
        InstructionPacketKind::parse(&f, 3),
        Ok(InstructionPacketKind::ReadData(ReadDataPacket { id: 3, address: 50, data_length: 12 }))
    ));
}

#[test]
fn parse_write_data() {
    let f = frame(3, 3, &[40, 1, 0, 1]);
    match InstructionPacketKind::parse(&f, 3) {
        Ok(InstructionPacketKind::WriteData(w)) => {
            assert_eq!(w.id, 3);
            assert_eq!(w.address, 40);
            assert_eq!(w.data, &[1, 0, 1]);
        }
        _ => panic!("expected a write packet"),
    }
}

#[test]
fn parse_skips_bytes_before_the_header() {
    let mut f = vec![0x00, 0x12];
    f.extend_from_slice(&frame(1, 1, &[]));
    assert!(matches!(
        InstructionPacketKind::parse(&f, 1),
        Ok(InstructionPacketKind::Ping(PingPacket { id: 1 }))
    ));
}

#[test]
fn parse_ignores_other_ids() {
    let f = frame(2, 1, &[]);
    assert!(matches!(
        InstructionPacketKind::parse(&f, 1),
        Err(ParsingError::IgnorePacket(1, 2))
    ));
}

#[test]
fn parse_rejects_bad_checksum() {
    let mut f = frame(1, 1, &[]);
    let last = f.len() - 1;
    f[last] ^= 0x01;
    assert!(matches!(InstructionPacketKind::parse(&f, 1), Err(ParsingError::InvalidChecksum)));
}

#[test]
fn parse_rejects_short_and_inconsistent_packets() {
    assert!(matches!(
        InstructionPacketKind::parse(&[0xFF, 0xFF, 1, 2, 1], 1),
        Err(ParsingError::InvalidPacket)
    ));
    assert!(matches!(
        InstructionPacketKind::parse(&[0, 0, 0, 0, 0, 0, 0], 1),
        Err(ParsingError::InvalidPacket)
    ));
    let mut f = frame(1, 1, &[]);
    f[3] = 3;
    assert!(matches!(InstructionPacketKind::parse(&f, 1), Err(ParsingError::InvalidPacket)));
}

#[test]
fn parse_reports_unknown_instruction() {
    let f = frame(1, 0x55, &[1]);
    assert!(matches!(
        InstructionPacketKind::parse(&f, 1),
        Err(ParsingError::UnkownInstruction(0x55))
    ));
}

#[test]
fn register_addresses() {
    assert_eq!(DynamixelRegister::with_address(0), Some(DynamixelRegister::ModelNumber));
    assert_eq!(DynamixelRegister::with_address(40), Some(DynamixelRegister::TorqueEnable));
    assert_eq!(DynamixelRegister::with_address(50), Some(DynamixelRegister::CurrentPosition));
    assert_eq!(DynamixelRegister::with_address(51), Some(DynamixelRegister::CurrentVelocity));
    assert_eq!(
        DynamixelRegister::with_address(62),
        Some(DynamixelRegister::TargetPositionWithVelocityFF)
    );
    assert_eq!(DynamixelRegister::with_address(99), Some(DynamixelRegister::IndexSensor));
    assert_eq!(DynamixelRegister::with_address(100), Some(DynamixelRegister::FullState));
    assert_eq!(DynamixelRegister::with_address(1), None);
    assert_eq!(DynamixelRegister::with_address(255), None);
}

#[test]
fn register_lookup_is_one_to_one() {
    let mut seen = Vec::new();
    for a in 0..=255u8 {
        if let Some(r) = DynamixelRegister::with_address(a) {
            assert!(!seen.contains(&r));
            seen.push(r);
        }
    }
    assert_eq!(seen.len(), 20);
}

#[test]
fn v1_parse_ping_and_read() {
    assert!(matches!(InstructionPacket::parse(&frame(1, 1, &[]), 1), Ok(InstructionPacket::Ping)));
    assert!(matches!(
        InstructionPacket::parse(&frame(1, 2, &[0x1E]), 1),
        Ok(InstructionPacket::ReadData(0x1E))
    ));
}

#[test]
fn v1_parse_errors() {
    assert!(matches!(InstructionPacket::parse(&frame(2, 1, &[]), 1), Err(DynamixelError {})));
    assert!(matches!(InstructionPacket::parse(&frame(1, 4, &[]), 1), Err(DynamixelError {})));
    assert!(matches!(InstructionPacket::parse(&[0xFF, 0xFF, 1], 1), Err(DynamixelError {})));
    let mut f = frame(1, 1, &[]);
    f[5] = 0;
    assert!(matches!(InstructionPacket::parse(&f, 1), Err(DynamixelError {})));
}

#[test]
fn v1_status_packet_bytes() {
    let mut buffer = [0xAAu8; 80];
    let n = StatusPacketV1::pong().to_bytes(&mut buffer);
    assert_eq!(n, 71);
    assert_eq!(&buffer[0..5], &[0xFF, 0xFF, 0, 66, 0]);
    assert!(buffer[5..69].iter().all(|b| *b == 0));
    assert_eq!(buffer[69], 0xAA);
    assert_eq!(buffer[70], 0xBD);
    assert!(buffer[71..].iter().all(|b| *b == 0xAA));
}

#[test]
fn dxl_com_answers_ping() {
    let mut dxl = DxlCom::new(1);
    match dxl.parse(&[0xFF, 0xFF, 1, 2, 1, 251]) {
        Ok(RWAction::Tx(bytes)) => assert_eq!(bytes, &[0xFF, 0xFF, 1, 2, 0, 252]),
        _ => panic!("expected a pong"),
    }
}

#[test]
fn dxl_com_answers_read_and_write() {
    let mut dxl = DxlCom::new(1);
    match dxl.parse(&frame(1, 2, &[1, 1])) {
        Ok(RWAction::Tx(bytes)) => assert_eq!(bytes, &[0]),
        _ => panic!("expected one byte"),
    }
    assert!(matches!(dxl.parse(&frame(1, 3, &[1, 1])), Ok(RWAction::Done)));
    assert!(matches!(dxl.parse(&frame(1, 9, &[])), Ok(RWAction::Ignore)));
}

#[test]
fn dxl_com_errors() {
    let mut dxl = DxlCom::new(1);
    assert!(matches!(dxl.parse(&[0xFF, 0xFF, 1]), Err(Error::BadPacket)));
    assert!(matches!(dxl.parse(&[0, 0xFF, 1, 2, 1, 251]), Err(Error::BadPacket)));
    assert!(matches!(dxl.parse(&[0xFF, 0xFF, 1, 2, 1, 250]), Err(Error::BadCRC)));
    assert!(matches!(dxl.parse(&[0xFF, 0xFF, 2, 2, 1, 250]), Ok(RWAction::Ignore)));
}

#[test]
fn receiver_assembles_a_frame() {
    let f = frame(5, 3, &[40, 1, 1, 1]);
    let mut rx = ByteReceiver::new();
    for (k, b) in f.iter().enumerate() {
        assert!(rx.accepts_byte());
        let out = rx.push(*b);
        if k + 1 < f.len() {
            assert!(out.is_none());
        } else {
            assert_eq!(out, Some(f.clone()));
        }
    }
}

#[test]
fn receiver_skips_noise_and_restarts_after_a_frame() {
    let f = frame(1, 1, &[]);
    let mut rx = ByteReceiver::new();
    for b in [0x00u8, 0x12, 0xFF, 0x00] {
        assert!(rx.push(b).is_none());
    }
    let mut got = None;
    for b in f.iter().chain(f.iter()) {
        if let Some(frame) = rx.push(*b) {
            assert_eq!(frame, f);
            got = Some(got.unwrap_or(0) + 1);
        }
    }
    assert_eq!(got, Some(2));
}

#[test]
fn receiver_refuses_bytes_after_a_zero_length() {
    let mut rx = ByteReceiver::new();
    for b in [0xFFu8, 0xFF, 1, 0] {
        assert!(rx.push(b).is_none());
    }
    assert!(!rx.accepts_byte());
}

#[test]
fn write_packet_fields_are_public() {
    let data = [1u8, 2];
    let w = WriteDataPacket { id: 1, address: 40, data: &data };
    assert_eq!(w.data.len(), 2);
}

#[test]
fn packets_the_parser_cannot_decode_are_detected() {
    assert!(reads_missing_params(&frame(1, 2, &[50]), 1));
    assert!(reads_missing_params(&frame(1, 3, &[]), 1));
    assert!(!reads_missing_params(&frame(1, 2, &[50, 1]), 1));
    assert!(!reads_missing_params(&frame(1, 3, &[40]), 1));
    assert!(!reads_missing_params(&frame(2, 2, &[50]), 1));
    assert!(!reads_missing_params(&frame(1, 1, &[]), 1));
    let mut f = frame(1, 2, &[50]);
    let last = f.len() - 1;
    f[last] ^= 1;
    assert!(!reads_missing_params(&f, 1));
}

#[test]
fn write_with_only_an_address_carries_no_data() {
    let f = frame(1, 3, &[40]);
    match InstructionPacketKind::parse(&f, 1) {
        Ok(InstructionPacketKind::WriteData(w)) => {
            assert_eq!(w.address, 40);
            assert!(w.data.is_empty());
        }
        _ => panic!("expected a write packet"),
    }
}

#[test]
fn chunk_receiver_reads_header_bytes_then_twice_the_payload() {
    let mut r = ChunkReceiver::new();
    assert_eq!(MAX_BUFFER_LENGTH, 512);
    for b in [0x12u8, 0xFF] {
        assert_eq!(r.request(), 1);
        assert!(r.push_chunk(&[b]).is_none());
    }
    for b in [0xFFu8, 0x01, 0x02] {
        assert_eq!(r.request(), 1);
        assert!(r.push_chunk(&[b]).is_none());
    }
    assert_eq!(r.request(), 4);
    assert!(r.fits_buffer());
    let frame = r.push_chunk(&[0x01, 0xFC, 0xAA, 0xBB]).expect("a frame");
    assert_eq!(frame, vec![0xFF, 0xFF, 0x01, 0x02, 0x01, 0xFC]);
    assert_eq!(r.request(), 1);
}

#[test]
fn chunk_receiver_refuses_payload_reads_beyond_the_buffer() {
    let mut r = ChunkReceiver::new();
    for b in [0xFFu8, 0xFF, 0x01, 0xFF] {
        r.push_chunk(&[b]);
    }
    assert_eq!(r.request(), 510);
    assert!(!r.fits_buffer());
    let mut r = ChunkReceiver::new();
    for b in [0xFFu8, 0xFF, 0x01, 254] {
        r.push_chunk(&[b]);
    }
    assert!(r.fits_buffer());
}

#[test]
fn chunk_receiver_header_break_starts_over() {
    let mut r = ChunkReceiver::new();
    r.push_chunk(&[0xFF]);
    assert!(r.push_chunk(&[0x00]).is_none());
    assert_eq!(r.request(), 1);
    for b in [0xFFu8, 0xFF, 0x07, 0x00] {
        assert!(r.push_chunk(&[b]).is_none());
    }
    assert_eq!(r.request(), 0);
    assert_eq!(r.push_chunk(&[]), Some(vec![0xFF, 0xFF, 0x07, 0x00]));
}
