use poulpe::motor_control::foc::MotionMode;
use poulpe::state_machine::cia402_registers::CiA402ModeOfOperation;
use poulpe::state_machine::cia402_state_machine::{
    bit, CiA402Command, CiA402State, CiA402StateMachine, CiA402StatusBit,
};
use poulpe::state_machine::poulpe_state::{HomingErrorFlag, MotorErrorFlag, PoulpeState};

const ALL_STATES: [CiA402State; 8] = [
    CiA402State::NotReadyToSwitchOn,
    CiA402State::SwitchOnDisabled,
    CiA402State::ReadyToSwitchOn,
    CiA402State::SwitchedOn,
    CiA402State::OperationEnabled,
    CiA402State::QuickStopActive,
    CiA402State::FaultReactionActive,
    CiA402State::Fault,
];

const ALL_COMMANDS: [CiA402Command; 8] = [
    CiA402Command::Shutdown,
    CiA402Command::SwitchOn,
    CiA402Command::DisableVoltage,
    CiA402Command::EnableOperation,
    CiA402Command::DisableOperation,
    CiA402Command::QuickStop,
    CiA402Command::FaultReset,
    CiA402Command::Unknown,
];

fn after(state: CiA402State, command: CiA402Command) -> CiA402State {
    let mut sm = CiA402StateMachine::new();
    sm.set_state(state);
    sm.update_state_with_command(command);
    sm.state
}

#[test]
fn control_word_decoding() {
    assert_eq!(CiA402Command::from_u16(0b0110), CiA402Command::Shutdown);
    assert_eq!(CiA402Command::from_u16(0b0111), CiA402Command::DisableOperation);
    assert_eq!(CiA402Command::from_u16(0b1111), CiA402Command::EnableOperation);
    assert_eq!(CiA402Command::from_u16(0b0010), CiA402Command::QuickStop);
    assert_eq!(CiA402Command::from_u16(0x80), CiA402Command::FaultReset);
    assert_eq!(CiA402Command::from_u16(0x8F), CiA402Command::FaultReset);
    assert_eq!(CiA402Command::from_u16(0), CiA402Command::Unknown);
    assert_eq!(CiA402Command::from_u16(0b1110), CiA402Command::Shutdown);
    assert_eq!(CiA402Command::from_u16(0b1011), CiA402Command::QuickStop);
}

#[test]
fn every_word_with_bit_seven_is_a_fault_reset() {
    for w in 0u16..=0xFFFF {
        if w & 0x80 != 0 {
            assert_eq!(CiA402Command::from_u16(w), CiA402Command::FaultReset);
        }
    }
}

#[test]
fn bits_of_a_word() {
    assert!(bit(0b1010, 1));
    assert!(!bit(0b1010, 0));
    assert!(bit(0x8000, 15));
}

#[test]
fn state_codes() {
    assert_eq!(CiA402State::SwitchOnDisabled.to_u16(), 0x40);
    assert_eq!(CiA402State::OperationEnabled.to_u16(), 0x37);
    assert_eq!(CiA402State::Fault.to_u16(), 0x08);
    assert_eq!(CiA402StatusBit::from_bit(3), CiA402StatusBit::Fault);
    assert_eq!(CiA402StatusBit::from_bit(7), CiA402StatusBit::Warning);
    assert_eq!(CiA402StatusBit::from_bit(15), CiA402StatusBit::PositionReferencedToHomePosition);
    assert_eq!(CiA402StatusBit::from_bit(40), CiA402StatusBit::Reserved14);
}

#[test]
fn normal_start_sequence() {
    let mut sm = CiA402StateMachine::default();
    assert_eq!(sm.state, CiA402State::NotReadyToSwitchOn);
    sm.set_state(CiA402State::SwitchOnDisabled);
    sm.update_state_with_command(CiA402Command::Shutdown);
    assert_eq!(sm.state, CiA402State::ReadyToSwitchOn);
    sm.update_state_with_command(CiA402Command::SwitchOn);
    assert_eq!(sm.state, CiA402State::SwitchedOn);
    sm.update_state_with_command(CiA402Command::EnableOperation);
    assert_eq!(sm.state, CiA402State::OperationEnabled);
    sm.update_state_with_command(CiA402Command::DisableOperation);
    assert_eq!(sm.state, CiA402State::SwitchedOn);
    sm.update_state_with_command(CiA402Command::QuickStop);
    assert_eq!(sm.state, CiA402State::SwitchOnDisabled);
}

#[test]
fn quick_stop_and_shutdown_from_operation() {
    assert_eq!(after(CiA402State::OperationEnabled, CiA402Command::QuickStop), CiA402State::QuickStopActive);
    assert_eq!(after(CiA402State::OperationEnabled, CiA402Command::Shutdown), CiA402State::SwitchOnDisabled);
    assert_eq!(after(CiA402State::ReadyToSwitchOn, CiA402Command::EnableOperation), CiA402State::OperationEnabled);
}

#[test]
fn fault_is_left_only_by_reset() {
    for c in ALL_COMMANDS {
        let s = after(CiA402State::Fault, c);
        if c == CiA402Command::FaultReset {
            assert_eq!(s, CiA402State::NotReadyToSwitchOn);
        } else {
            assert_eq!(s, CiA402State::Fault);
        }
    }
}

#[test]
fn transient_states_ignore_commands() {
    for s in [CiA402State::NotReadyToSwitchOn, CiA402State::QuickStopActive, CiA402State::FaultReactionActive] {
        for c in ALL_COMMANDS {
            assert_eq!(after(s, c), s);
        }
    }
}

#[test]
fn commands_never_lead_to_a_fault() {
    for s in ALL_STATES {
        if s == CiA402State::Fault || s == CiA402State::FaultReactionActive {
            continue;
        }
        for c in ALL_COMMANDS {
            let n = after(s, c);
            assert_ne!(n, CiA402State::Fault);
            assert_ne!(n, CiA402State::FaultReactionActive);
        }
    }
}

#[test]
fn operation_is_enabled_only_by_enable_operation() {
    for s in ALL_STATES {
        if s == CiA402State::OperationEnabled {
            continue;
        }
        for c in ALL_COMMANDS {
            if after(s, c) == CiA402State::OperationEnabled {
                assert_eq!(c, CiA402Command::EnableOperation);
                assert!(s == CiA402State::ReadyToSwitchOn || s == CiA402State::SwitchedOn);
            }
        }
    }
}

#[test]
fn fault_state_and_warning() {
    let mut sm = CiA402StateMachine::new();
    sm.set_fault_state();
    assert_eq!(sm.state, CiA402State::Fault);
    sm.set_state(CiA402State::OperationEnabled);
    sm.set_warning_state();
    sm.set_fault_state();
    assert_eq!(sm.state, CiA402State::FaultReactionActive);
    assert!(sm.warning_active);
    sm.clear_warning_state();
    assert!(!sm.warning_active);
}

#[test]
fn status_bits_of_operation_enabled() {
    let mut sm = CiA402StateMachine::new();
    sm.set_state(CiA402State::OperationEnabled);
    let bits = sm.get_status_bits();
    assert_eq!(bits[0], Some(CiA402StatusBit::ReadyToSwitchOn));
    assert_eq!(bits[1], Some(CiA402StatusBit::SwitchedOn));
    assert_eq!(bits[2], Some(CiA402StatusBit::OperationEnabled));
    assert_eq!(bits[3], None);
    assert_eq!(bits[4], Some(CiA402StatusBit::VoltageEnabled));
    assert_eq!(bits[5], Some(CiA402StatusBit::QuickStop));
    assert_eq!(bits[6], None);
    assert_eq!(bits[7], None);
}

#[test]
fn modes_of_operation() {
    assert_eq!(CiA402ModeOfOperation::from_u8(1), CiA402ModeOfOperation::ProfilePositionMode);
    assert_eq!(CiA402ModeOfOperation::from_u8(3), CiA402ModeOfOperation::ProfileVelocityMode);
    assert_eq!(CiA402ModeOfOperation::from_u8(4), CiA402ModeOfOperation::ProfileTorqueMode);
    assert_eq!(CiA402ModeOfOperation::from_u8(2), CiA402ModeOfOperation::NoMode);
    for v in [0u8, 1, 3, 4] {
        assert_eq!(CiA402ModeOfOperation::from_u8(v).to_u8(), v);
    }
    assert_eq!(CiA402ModeOfOperation::ProfileTorqueMode.to_tmc4671_mode(), MotionMode::Torque);
    assert_eq!(CiA402ModeOfOperation::from_tmc4671_mode(MotionMode::Velocity), CiA402ModeOfOperation::ProfileVelocityMode);
    assert_eq!(CiA402ModeOfOperation::from_tmc4671_mode(MotionMode::UqUdExt), CiA402ModeOfOperation::NoMode);
    for m in [CiA402ModeOfOperation::NoMode, CiA402ModeOfOperation::ProfilePositionMode, CiA402ModeOfOperation::ProfileVelocityMode, CiA402ModeOfOperation::ProfileTorqueMode] {
        assert_eq!(CiA402ModeOfOperation::from_tmc4671_mode(m.to_tmc4671_mode()), m);
    }
}

#[test]
fn poulpe_state_commands_and_faults() {
    let mut s = PoulpeState::new();
    assert!(s.is_init());
    s.notify_init_success();
    assert!(s.is_preoperation_state());
    s.process_command(0b0110);
    s.process_command(0b0111);
    s.process_command(0b1111);
    assert!(s.is_operation_enabled());
    assert_eq!(s.get_state(), CiA402State::OperationEnabled);
    s.set_fault_state();
    assert!(s.is_fault_reaction_state());
    s.notify_fault_reaction_done();
    assert!(s.is_fault());
    s.process_command(0x80);
    assert!(s.is_init());
    s.set_fault_state();
    assert!(s.is_fault());
    s.set_fault_state();
    assert!(s.is_fault());
    s.set_init_state();
    assert!(s.is_init());
}

#[test]
fn poulpe_statusword_carries_warning_in_bit_seven() {
    let mut s = PoulpeState::default();
    s.notify_init_success();
    assert_eq!(s.status_to_statusword(), [0x40, 0]);
    s.set_warning_state();
    assert!(s.is_warning());
    assert_eq!(s.status_to_statusword(), [0xC0, 0]);
    s.clear_warning_state();
    assert_eq!(s.status_to_statusword(), [0x40, 0]);
}

#[test]
fn poulpe_error_flag_words() {
    let mut only_motor = PoulpeState::new();
    only_motor.set_motor_error_flag(0, MotorErrorFlag::ConfigFail);
    assert_eq!(only_motor.error_flags_to_u32(), 256);
    let mut s = PoulpeState::new();
    s.set_homing_error_flag(HomingErrorFlag::CommunicationFail);
    s.set_motor_error_flag(0, MotorErrorFlag::ConfigFail);
    s.set_motor_error_flag(1, MotorErrorFlag::DriverFault);
    s.set_motor_error_flag(2, MotorErrorFlag::OverCurrent);
    assert_eq!(s.error_flags_to_u32(), 0x2080_0120);
    assert_eq!(s.error_flags_to_u8(), [32, 1, 128, 32]);
    assert_eq!(s.error_flags_to_u32(), u32::from_le_bytes(s.error_flags_to_u8()));
    assert_eq!(s.to_byte_array(), [0, 0, 32, 1, 128, 32]);
    assert!(s.is_motor_error(1));
    assert!(s.check_motor_error_flag(1, MotorErrorFlag::DriverFault));
    assert!(s.check_homing_error_flag(HomingErrorFlag::CommunicationFail));
    s.clear_motor_error_flag(1, MotorErrorFlag::DriverFault);
    assert!(!s.is_motor_error(1));
    s.clear_homing_error_flag(HomingErrorFlag::CommunicationFail);
    assert!(!s.is_homing_error());
    s.clear_errors();
    assert_eq!(s.motor_error_flags, [0, 0, 0]);
}

#[test]
fn poulpe_raised_flag_is_seen_and_others_kept() {
    let mut s = PoulpeState::new();
    s.set_motor_error_flag(0, MotorErrorFlag::LowBusVoltage);
    let before = s.motor_error_flags[0];
    s.set_motor_error_flag(0, MotorErrorFlag::OverTemperatureMotor);
    assert!(s.check_motor_error_flag(0, MotorErrorFlag::OverTemperatureMotor));
    s.clear_motor_error_flag(0, MotorErrorFlag::OverTemperatureMotor);
    assert_eq!(s.motor_error_flags[0], before);
    assert!(s.check_motor_error_flag(0, MotorErrorFlag::NoError));
}

#[test]
fn cia402_poulpe_flag_lists() {
    let mut s = PoulpeState::new();
    assert_eq!(s.get_homing_error_flags()[0], Some(HomingErrorFlag::NoError));
    s.set_homing_error_flag(HomingErrorFlag::CommunicationFail);
    assert_eq!(s.get_homing_error_flags()[5], Some(HomingErrorFlag::CommunicationFail));
    s.set_motor_error_flag(2, MotorErrorFlag::DriverFault);
    assert_eq!(s.get_motor_errors_flags(2)[7], Some(MotorErrorFlag::DriverFault));
    assert_eq!(s.get_motor_errors_flags(1)[0], Some(MotorErrorFlag::NoError));
}
