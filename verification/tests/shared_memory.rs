use poulpe::dynamixel::handler::{handle_request, MemoryUpdate};
use poulpe::dynamixel::packet::instruction_packet::{
    InstructionPacketKind, ReadDataPacket, WriteDataPacket,
};
use poulpe::dynamixel::packet::status_packet::status_frame_bytes;
use poulpe::motor_control::foc::MotionMode;
use poulpe::motor_control::Pid;
use poulpe::shared_memory::{
    ActuatorReadings, SharedMemory, F32_NAN_BITS, F32_ONE_BITS, FULL_STATE_LEN,
};

fn float_bytes(values: &[f32]) -> Vec<u8> {
    values.iter().flat_map(|v| v.to_le_bytes()).collect()
}

fn bits(v: [f32; 3]) -> [u32; 3] {
    v.map(f32::to_bits)
}

fn nothing_read() -> ActuatorReadings {
    ActuatorReadings {
        torque_on: None,
        control_mode: None,
        current_position: None,
        current_velocity: None,
        current_torque: None,
        target_position: None,
        target_velocity: None,
        target_torque: None,
        axis_sensor: None,
        hardware_zeros: None,
        flux_pid_gains: None,
        torque_pid_gains: None,
        velocity_pid_gains: None,
        position_pid_gains: None,
        uq_ud_limit: None,
        torque_flux_limit_max: None,
        velocity_limit_max: None,
        velocity_feedforward: None,
        board_temperature: None,
        bus_voltage: None,
        index_sensor: [0xff; 3],
    }
}

#[test]
fn default_store_is_switched_off_in_torque_mode() {
    let m = SharedMemory::default();
    assert_eq!(m.get_torque_on(), [false; 3]);
    assert_eq!(m.get_control_mode(), MotionMode::Torque);
    assert_eq!(m.get_control_word(), 0);
    assert_eq!(m.get_current_position(), [0; 3]);
    assert_eq!(m.get_torque_flux_limit(), [0; 3]);
    assert_eq!(m.get_index_sensor(), [0xff; 3]);
    assert_eq!(m.get_flux_pid_gains(), [Pid { p: 0, i: 0 }; 3]);
    assert_eq!(m.get_target_set_timestamp(), None);
    assert_eq!(m.get_velocity_feedforward_timestamp(), None);
    assert!(!m.get_error_led());
}

#[test]
fn init_without_readings_marks_unknown_values() {
    let mut m = SharedMemory::default();
    m.init(&nothing_read(), 12);
    assert_eq!(F32_NAN_BITS, f32::NAN.to_bits());
    assert_eq!(F32_ONE_BITS, 1.0f32.to_bits());
    assert_eq!(m.get_control_mode(), MotionMode::Stopped);
    assert_eq!(m.get_current_position(), [F32_NAN_BITS; 3]);
    assert_eq!(m.get_target_torque(), [F32_NAN_BITS; 3]);
    assert_eq!(m.get_hardware_zeros(), [F32_NAN_BITS; 3]);
    assert_eq!(m.get_torque_flux_limit(), [F32_ONE_BITS; 3]);
    assert_eq!(m.get_velocity_limit(), [F32_ONE_BITS; 3]);
    assert_eq!(m.get_velocity_limit_max(), [0; 3]);
    assert_eq!(m.get_uq_ud_limit(), [0; 3]);
    assert_eq!(m.get_target_set_timestamp(), Some(12));
    assert_eq!(m.get_velocity_feedforward_timestamp(), Some(12));
}

#[test]
fn init_keeps_what_the_actuator_reported() {
    let mut r = nothing_read();
    r.torque_on = Some([true, false, true]);
    r.control_mode = Some([MotionMode::Position, MotionMode::Velocity, MotionMode::Torque]);
    r.current_position = Some(bits([1.0, 2.0, 3.0]));
    r.position_pid_gains = Some([Pid { p: 5, i: 6 }; 3]);
    r.uq_ud_limit = Some([10, 20, 30]);
    r.index_sensor = [1, 2, 3];
    let mut m = SharedMemory::default();
    m.init(&r, 0);
    assert_eq!(m.get_torque_on(), [true, false, true]);
    assert_eq!(m.get_control_mode(), MotionMode::Position);
    assert_eq!(m.get_current_position(), bits([1.0, 2.0, 3.0]));
    assert_eq!(m.get_position_pid_gains(), [Pid { p: 5, i: 6 }; 3]);
    assert_eq!(m.get_velocity_pid_gains(), [Pid { p: 0, i: 0 }; 3]);
    assert_eq!(m.get_uq_ud_limit(), [10, 20, 30]);
    assert_eq!(m.get_index_sensor(), [1, 2, 3]);
}

#[test]
fn setters_change_only_their_value() {
    let mut m = SharedMemory::default();
    let before = m.snapshot();
    m.set_velocity_limit(bits([1.5, 2.5, 3.5]));
    assert_eq!(m.get_velocity_limit(), bits([1.5, 2.5, 3.5]));
    let after = m.snapshot();
    assert_eq!(after.torque_flux_limit, before.torque_flux_limit);
    assert_eq!(after.current_position, before.current_position);
    m.set_target_position(bits([0.1, 0.2, 0.3]), 77);
    assert_eq!(m.get_target_position(), bits([0.1, 0.2, 0.3]));
    assert_eq!(m.get_target_set_timestamp(), Some(77));
    assert_eq!(m.get_velocity_feedforward_timestamp(), None);
}

#[test]
fn full_state_lists_positions_velocities_torques() {
    let mut m = SharedMemory::default();
    m.set_current_position([1, 2, 3]);
    m.set_current_velocity([4, 5, 6]);
    m.set_current_torque([7, 8, 9]);
    assert_eq!(FULL_STATE_LEN, 9);
    assert_eq!(m.get_full_state(), [1, 2, 3, 4, 5, 6, 7, 8, 9]);
}

#[test]
fn bare_target_position_resets_feedforward() {
    let mut m = SharedMemory::default();
    m.apply(MemoryUpdate::VelocityFeedforward(bits([1.0, 1.0, 1.0])), 5);
    assert_eq!(m.get_velocity_feedforward_timestamp(), Some(5));
    m.apply(MemoryUpdate::TargetPosition(bits([0.5, 0.5, 0.5])), 9);
    assert_eq!(m.get_target_position(), bits([0.5, 0.5, 0.5]));
    assert_eq!(m.get_velocity_feedforward(), [0; 3]);
    assert_eq!(m.get_velocity_feedforward_timestamp(), Some(9));
    assert_eq!(m.get_target_set_timestamp(), Some(9));
    m.apply(
        MemoryUpdate::TargetPositionWithVelocityFF(bits([1.0, 2.0, 3.0]), bits([4.0, 5.0, 6.0])),
        11,
    );
    assert_eq!(m.get_velocity_feedforward(), bits([4.0, 5.0, 6.0]));
    m.apply(MemoryUpdate::TargetPositionOnly(bits([7.0, 8.0, 9.0])), 13);
    assert_eq!(m.get_target_position(), bits([7.0, 8.0, 9.0]));
    assert_eq!(m.get_velocity_feedforward(), bits([4.0, 5.0, 6.0]));
    assert_eq!(m.get_velocity_feedforward_timestamp(), Some(11));
}

#[test]
fn bus_write_then_read_back_through_the_store() {
    let mut m = SharedMemory::default();
    let data = float_bytes(&[0.25, -1.5, 3.0]);
    let write = InstructionPacketKind::WriteData(WriteDataPacket { id: 4, address: 10, data: &data });
    let out = handle_request(&write, 4, 0, &m.values());
    assert_eq!(out.reply, Some(status_frame_bytes(4, 0, &[])));
    m.apply(out.update.expect("an accepted write"), 1);
    let read = InstructionPacketKind::ReadData(ReadDataPacket { id: 4, address: 10, data_length: 12 });
    let out = handle_request(&read, 4, 0, &m.values());
    assert!(out.update.is_none());
    assert_eq!(out.reply, Some(status_frame_bytes(4, 0, &data)));
}
