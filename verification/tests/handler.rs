use poulpe::dynamixel::handler::{
    decode_write, handle_request, read_payload, MemoryUpdate, RegisterValues,
};
use poulpe::dynamixel::packet::instruction_packet::{
    InstructionPacketKind, PingPacket, ReadDataPacket, WriteDataPacket,
};
use poulpe::dynamixel::packet::status_packet::status_frame_bytes;
use poulpe::dynamixel::register::DynamixelRegister;
use poulpe::motor_control::Pid;

fn values() -> RegisterValues {
    RegisterValues {
        torque_on: [true, false, true],
        current_position: [1.0f32.to_bits(), 2.0f32.to_bits(), 3.0f32.to_bits()],
        current_velocity: [4.0f32.to_bits(), 5.0f32.to_bits(), 6.0f32.to_bits()],
        current_torque: [7.0f32.to_bits(), 8.0f32.to_bits(), 9.0f32.to_bits()],
        velocity_feedforward: [0; 3],
        target_position: [0.5f32.to_bits(); 3],
        axis_sensor: [0.25f32.to_bits(); 3],
        flux_pid: [Pid { p: 1, i: 2 }; 3],
        torque_pid: [Pid { p: 3, i: 4 }; 3],
        velocity_pid: [Pid { p: 5, i: 6 }; 3],
        position_pid: [Pid { p: 7, i: 8 }; 3],
        uq_ud_limit: [-2, 0, 300],
        torque_flux_limit: [1.0f32.to_bits(); 3],
        velocity_limit: [2.0f32.to_bits(); 3],
        index_sensor: [0xFF, 3, 7],
    }
}

fn float_bytes(values: &[f32]) -> Vec<u8> {
    values.iter().flat_map(|v| v.to_le_bytes()).collect()
}

#[test]
fn ping_is_acknowledged() {
    let packet = InstructionPacketKind::Ping(PingPacket { id: 1 });
    let out = handle_request(&packet, 1, 0, &values());
    assert!(out.update.is_none());
    assert_eq!(out.reply, Some(vec![0xFF, 0xFF, 0x01, 0x02, 0x00, 0xFC]));
}

#[test]
fn read_torque_enable_reports_one_byte_per_axis() {
    let packet = InstructionPacketKind::ReadData(ReadDataPacket { id: 1, address: 40, data_length: 3 });
    let out = handle_request(&packet, 1, 0, &values());
    assert!(out.update.is_none());
    assert_eq!(out.reply, Some(status_frame_bytes(1, 0, &[1, 0, 1])));
}

#[test]
fn read_current_position_reports_floats() {
    let packet = InstructionPacketKind::ReadData(ReadDataPacket { id: 1, address: 50, data_length: 12 });
    let out = handle_request(&packet, 1, 4, &values());
    assert_eq!(out.reply, Some(status_frame_bytes(1, 4, &float_bytes(&[1.0, 2.0, 3.0]))));
}

#[test]
fn read_full_state_concatenates_position_velocity_torque() {
    let expected = float_bytes(&[1.0, 2.0, 3.0, 4.0, 5.0, 6.0, 7.0, 8.0, 9.0]);
    assert_eq!(read_payload(DynamixelRegister::FullState, &values()), Some(expected));
}

#[test]
fn read_payloads_of_integer_registers() {
    let v = values();
    assert_eq!(read_payload(DynamixelRegister::UqUdLimit, &v), Some(vec![0xFE, 0xFF, 0, 0, 0x2C, 0x01]));
    assert_eq!(
        read_payload(DynamixelRegister::FluxPID, &v),
        Some(vec![2, 0, 1, 0, 2, 0, 1, 0, 2, 0, 1, 0])
    );
    assert_eq!(read_payload(DynamixelRegister::IndexSensor, &v), Some(vec![0xFF, 3, 7]));
    assert_eq!(read_payload(DynamixelRegister::ModelNumber, &v), None);
    assert_eq!(read_payload(DynamixelRegister::TargetPositionWithVelocityFF, &v), None);
}

#[test]
fn read_of_unknown_register_is_not_answered() {
    let packet = InstructionPacketKind::ReadData(ReadDataPacket { id: 1, address: 1, data_length: 1 });
    let out = handle_request(&packet, 1, 0, &values());
    assert!(out.update.is_none());
    assert!(out.reply.is_none());
    let packet = InstructionPacketKind::ReadData(ReadDataPacket { id: 1, address: 7, data_length: 1 });
    assert!(handle_request(&packet, 1, 0, &values()).reply.is_none());
}

#[test]
fn write_torque_enable_is_acknowledged() {
    let data = [1u8, 0, 5];
    let packet = InstructionPacketKind::WriteData(WriteDataPacket { id: 1, address: 40, data: &data });
    let out = handle_request(&packet, 1, 0, &values());
    assert!(matches!(out.update, Some(MemoryUpdate::TorqueOn([true, false, true]))));
    assert_eq!(out.reply, Some(status_frame_bytes(1, 0, &[])));
}

#[test]
fn write_target_position_answers_current_position() {
    let data = float_bytes(&[0.1, 0.2, 0.3]);
    let packet = InstructionPacketKind::WriteData(WriteDataPacket { id: 1, address: 60, data: &data });
    let out = handle_request(&packet, 1, 0, &values());
    match out.update {
        Some(MemoryUpdate::TargetPosition(t)) => {
            assert_eq!(t, [0.1f32.to_bits(), 0.2f32.to_bits(), 0.3f32.to_bits()])
        }
        _ => panic!("expected a target position"),
    }
    assert_eq!(out.reply, Some(status_frame_bytes(1, 0, &float_bytes(&[1.0, 2.0, 3.0]))));
}

#[test]
fn write_with_nan_changes_nothing_and_is_not_answered() {
    let data = float_bytes(&[0.1, f32::NAN, 0.3]);
    let packet = InstructionPacketKind::WriteData(WriteDataPacket { id: 1, address: 60, data: &data });
    let out = handle_request(&packet, 1, 0, &values());
    assert!(out.update.is_none());
    assert!(out.reply.is_none());
}

#[test]
fn write_with_wrong_length_changes_nothing() {
    let data = [1u8, 2];
    let packet = InstructionPacketKind::WriteData(WriteDataPacket { id: 1, address: 20, data: &data });
    let out = handle_request(&packet, 1, 0, &values());
    assert!(out.update.is_none());
    assert!(out.reply.is_none());
}

#[test]
fn write_to_read_only_or_unknown_register_changes_nothing() {
    let data = [0u8; 12];
    for address in [50u8, 0, 3] {
        let packet =
            InstructionPacketKind::WriteData(WriteDataPacket { id: 1, address, data: &data });
        let out = handle_request(&packet, 1, 0, &values());
        assert!(out.update.is_none());
        assert!(out.reply.is_none());
    }
}

#[test]
fn write_target_with_feedforward() {
    let mut data = float_bytes(&[1.0, 2.0, 3.0]);
    data.extend(float_bytes(&[-1.0, -2.0, -3.0]));
    match decode_write(DynamixelRegister::TargetPositionWithVelocityFF, &data) {
        Some(MemoryUpdate::TargetPositionWithVelocityFF(t, v)) => {
            assert_eq!(t, [1.0f32.to_bits(), 2.0f32.to_bits(), 3.0f32.to_bits()]);
            assert_eq!(v, [(-1.0f32).to_bits(), (-2.0f32).to_bits(), (-3.0f32).to_bits()]);
        }
        _ => panic!("expected target and feed-forward"),
    }
}

#[test]
fn write_target_with_refused_feedforward_sets_target_only_and_stays_silent() {
    let mut data = float_bytes(&[1.0, 2.0, 3.0]);
    data.extend(float_bytes(&[f32::NAN, 0.0, 0.0]));
    let packet = InstructionPacketKind::WriteData(WriteDataPacket { id: 1, address: 62, data: &data });
    let out = handle_request(&packet, 1, 0, &values());
    assert!(matches!(out.update, Some(MemoryUpdate::TargetPositionOnly(_))));
    assert!(out.reply.is_none());
}

#[test]
fn write_pid_and_limits() {
    let data = [2u8, 0, 1, 0, 4, 0, 3, 0, 0xFF, 0xFF, 0xFF, 0xFF];
    match decode_write(DynamixelRegister::PositionPID, &data) {
        Some(MemoryUpdate::PositionPid(g)) => {
            assert_eq!(g, [Pid { p: 1, i: 2 }, Pid { p: 3, i: 4 }, Pid { p: 0x7FFF, i: 0x7FFF }])
        }
        _ => panic!("expected position gains"),
    }
    match decode_write(DynamixelRegister::UqUdLimit, &[0xFE, 0xFF, 1, 0, 0, 0x80]) {
        Some(MemoryUpdate::UqUdLimit(l)) => assert_eq!(l, [-2, 1, i16::MIN]),
        _ => panic!("expected voltage limits"),
    }
}

#[test]
fn written_limits_read_back_unchanged() {
    let data = float_bytes(&[0.5, 1.5, -2.5]);
    let mut v = values();
    match decode_write(DynamixelRegister::TorqueFluxLimit, &data) {
        Some(MemoryUpdate::TorqueFluxLimit(l)) => v.torque_flux_limit = l,
        _ => panic!("expected a limit"),
    }
    assert_eq!(read_payload(DynamixelRegister::TorqueFluxLimit, &v), Some(data));
    let raw = [0x01u8, 0x80, 0xFF, 0x7F, 0, 0];
    match decode_write(DynamixelRegister::UqUdLimit, &raw) {
        Some(MemoryUpdate::UqUdLimit(l)) => v.uq_ud_limit = l,
        _ => panic!("expected voltage limits"),
    }
    assert_eq!(read_payload(DynamixelRegister::UqUdLimit, &v), Some(raw.to_vec()));
}

#[test]
fn written_torque_switches_read_back_as_zero_or_one() {
    let mut v = values();
    match decode_write(DynamixelRegister::TorqueEnable, &[7, 0, 255]) {
        Some(MemoryUpdate::TorqueOn(t)) => v.torque_on = t,
        _ => panic!("expected torque switches"),
    }
    assert_eq!(read_payload(DynamixelRegister::TorqueEnable, &v), Some(vec![1, 0, 1]));
}
