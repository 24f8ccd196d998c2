use poulpe::motor_control::control::{
    after_init_step, begin_init_attempt, control_tick, feedforward_to_apply, InitAction, merge_axis_sensors, record_axis_faults, record_homing_outcome,
    record_init_failure, supervise_communication, update_temperature_state, InitFailure,
    TemperatureLevel, MAX_COMMUNICATION_DOWN_TIME, MAX_INIT_ATTEMPTS,
    VELOCITY_FEEDFORWARD_TIMEOUT_MS,
};
use poulpe::motor_control::foc::MotionMode;
use poulpe::motor_control::supervision::EMERGENCY_STOP_RESPONSE_TICKS;
use poulpe::state_machine::cia402_state_machine::CiA402State;
use poulpe::state_machine::poulpe_state::{HomingErrorFlag, MotorErrorFlag, PoulpeState};

fn running() -> PoulpeState {
    let mut s = PoulpeState::new();
    s.notify_init_success();
    s
}

#[test]
fn init_failures_raise_their_flags() {
    assert_eq!(MAX_INIT_ATTEMPTS, 2);
    let mut s = PoulpeState::new();
    record_init_failure(&mut s, InitFailure::MotorConfig, 1);
    assert!(s.is_fault());
    assert_eq!(s.motor_error_flags, [0, 1, 0]);
    assert_eq!(s.homing_error_flags, 0);

    let mut s = PoulpeState::new();
    record_init_failure(&mut s, InitFailure::MotorCheck, 2);
    assert_eq!(s.motor_error_flags, [0, 0, 2]);
    assert!(s.check_homing_error_flag(HomingErrorFlag::MotorMovementCheckFail));

    let mut s = PoulpeState::new();
    record_init_failure(&mut s, InitFailure::MovedSensorRead, 0);
    assert_eq!(s.homing_error_flags, 1 | 2);
    assert_eq!(s.motor_error_flags, [0, 0, 0]);

    let mut s = PoulpeState::new();
    record_init_failure(&mut s, InitFailure::SensorAlignment, 0);
    assert_eq!(s.homing_error_flags, 4);
    assert_eq!(s.motor_error_flags, [2, 0, 0]);
}

#[test]
fn homing_outcomes() {
    let mut s = PoulpeState::new();
    let before = s;
    record_homing_outcome(&mut s, Some(HomingErrorFlag::NoError));
    assert!(s == before);
    record_homing_outcome(&mut s, Some(HomingErrorFlag::IndexSearchFail));
    assert!(s.is_fault());
    assert!(s.check_homing_error_flag(HomingErrorFlag::IndexSearchFail));
    let mut s = PoulpeState::new();
    record_homing_outcome(&mut s, None);
    assert!(s.check_homing_error_flag(HomingErrorFlag::ZeroingFail));
}

#[test]
fn axis_faults_while_running_start_the_fault_reaction() {
    let mut s = running();
    record_axis_faults(&mut s, MotorErrorFlag::LowBusVoltage, [false, false, false]);
    assert_eq!(s.get_state(), CiA402State::SwitchOnDisabled);
    record_axis_faults(&mut s, MotorErrorFlag::DriverFault, [false, true, true]);
    assert!(s.is_fault_reaction_state());
    assert_eq!(s.motor_error_flags, [0, 128, 128]);
}

#[test]
fn communication_down_too_long_stops_the_board() {
    assert_eq!(MAX_COMMUNICATION_DOWN_TIME, 3);
    let mut s = running();
    assert!(!supervise_communication(
        &mut s,
        true,
        3,
        0,
        MotorErrorFlag::NoError,
        HomingErrorFlag::CommunicationFail
    ));
    assert_eq!(s.get_state(), CiA402State::SwitchOnDisabled);
    assert!(!supervise_communication(
        &mut s,
        false,
        100,
        0,
        MotorErrorFlag::NoError,
        HomingErrorFlag::CommunicationFail
    ));
    assert!(supervise_communication(
        &mut s,
        true,
        4,
        0,
        MotorErrorFlag::NoError,
        HomingErrorFlag::CommunicationFail
    ));
    assert!(s.is_fault_reaction_state());
    assert!(s.check_homing_error_flag(HomingErrorFlag::CommunicationFail));
}

#[test]
fn temperature_levels_update_warning_fault_and_flags() {
    let mut s = running();
    update_temperature_state(
        &mut s,
        [TemperatureLevel::High, TemperatureLevel::Normal, TemperatureLevel::Normal],
    );
    assert!(s.is_warning());
    assert_eq!(s.motor_error_flags, [4, 0, 0]);
    update_temperature_state(&mut s, [TemperatureLevel::Normal; 3]);
    assert!(!s.is_warning());
    assert_eq!(s.motor_error_flags, [0, 0, 0]);
    update_temperature_state(
        &mut s,
        [TemperatureLevel::BelowRange, TemperatureLevel::Normal, TemperatureLevel::Normal],
    );
    assert!(s.is_warning());
    update_temperature_state(
        &mut s,
        [TemperatureLevel::Normal, TemperatureLevel::MotorOverheated, TemperatureLevel::BoardOverheated],
    );
    assert!(s.is_fault_reaction_state());
    assert!(!s.is_warning());
    assert_eq!(s.motor_error_flags, [0, 8, 16]);
}

#[test]
fn feedforward_expires() {
    assert_eq!(VELOCITY_FEEDFORWARD_TIMEOUT_MS, 200);
    let v = [1, 2, 3];
    assert_eq!(feedforward_to_apply(v, None, 10), [0, 0, 0]);
    assert_eq!(feedforward_to_apply(v, Some(100), 300), v);
    assert_eq!(feedforward_to_apply(v, Some(100), 301), [0, 0, 0]);
}

#[test]
fn axis_sensor_readings_keep_previous_values_on_nan_or_silence() {
    let prev = [1.0f32.to_bits(), 2.0f32.to_bits(), 3.0f32.to_bits()];
    let (values, missing) =
        merge_axis_sensors(prev, [Some(4.0f32.to_bits()), Some(f32::NAN.to_bits()), None]);
    assert_eq!(values, [4.0f32.to_bits(), 2.0f32.to_bits(), 3.0f32.to_bits()]);
    assert_eq!(missing, [false, false, true]);
}

#[test]
fn fault_keeps_torque_off_on_every_tick() {
    let mut s = PoulpeState::new();
    record_init_failure(&mut s, InitFailure::MotorConfig, 0);
    assert!(s.is_fault());
    let (mut f, mut q) = (0usize, 0usize);
    for _ in 0..3 {
        let c = control_tick(&mut s, [true; 3], &mut f, &mut q, false);
        assert_eq!(c.torque_on, [false; 3]);
        assert!(c.mode.is_none());
        assert!(s.is_fault());
    }
    assert_eq!((f, q), (0, 0));
}

#[test]
fn fault_reaction_brakes_then_stops() {
    let mut s = running();
    s.set_fault_state();
    assert!(s.is_fault_reaction_state());
    let (mut f, mut q) = (0usize, 0usize);
    let c = control_tick(&mut s, [true; 3], &mut f, &mut q, true);
    assert_eq!(c.torque_on, [true; 3]);
    assert_eq!(c.mode, Some(MotionMode::Stopped));
    assert_eq!(f, 1);
    f = EMERGENCY_STOP_RESPONSE_TICKS - 1;
    let c = control_tick(&mut s, [true; 3], &mut f, &mut q, false);
    assert_eq!(c.torque_on, [true; 3]);
    assert!(s.is_fault_reaction_state());
    let c = control_tick(&mut s, [true; 3], &mut f, &mut q, true);
    assert_eq!(c.torque_on, [false; 3]);
    assert!(s.is_fault());
    let mut s = running();
    s.set_fault_state();
    let mut f = 2 * EMERGENCY_STOP_RESPONSE_TICKS - 1;
    let c = control_tick(&mut s, [true; 3], &mut f, &mut q, false);
    assert_eq!(c.torque_on, [false; 3]);
    assert!(s.is_fault());
}

#[test]
fn quick_stop_brakes_then_returns_to_switch_on_disabled() {
    let mut s = running();
    s.state_machine.set_state(CiA402State::QuickStopActive);
    let (mut f, mut q) = (0usize, EMERGENCY_STOP_RESPONSE_TICKS - 2);
    let c = control_tick(&mut s, [true, false, true], &mut f, &mut q, true);
    assert_eq!(c.torque_on, [true, false, true]);
    assert_eq!(c.mode, Some(MotionMode::Stopped));
    assert_eq!(q, EMERGENCY_STOP_RESPONSE_TICKS - 1);
    let c = control_tick(&mut s, [true; 3], &mut f, &mut q, true);
    assert_eq!(c.torque_on, [false; 3]);
    assert_eq!(c.mode, Some(MotionMode::Position));
    assert_eq!(s.get_state(), CiA402State::SwitchOnDisabled);
    assert_eq!(q, 0);
    let c = control_tick(&mut s, [true; 3], &mut f, &mut q, true);
    assert_eq!(c.torque_on, [true; 3]);
    assert!(c.mode.is_none());
}

#[test]
fn startup_retries_once_then_gives_up() {
    let mut s = PoulpeState::new();
    for attempt in 0..MAX_INIT_ATTEMPTS {
        begin_init_attempt(&mut s);
        assert_eq!(s.get_state(), CiA402State::NotReadyToSwitchOn);
        assert_eq!(s.homing_error_flags, 0);
        assert_eq!(s.motor_error_flags, [0, 0, 0]);
        assert_eq!(after_init_step(&mut s, attempt, false), InitAction::Continue);
        record_init_failure(&mut s, InitFailure::MotorCheck, 1);
        let expected = if attempt + 1 < MAX_INIT_ATTEMPTS {
            InitAction::Retry
        } else {
            InitAction::GiveUp
        };
        assert_eq!(after_init_step(&mut s, attempt, false), expected);
        assert!(s.is_fault());
    }
}

#[test]
fn startup_succeeds_after_a_failed_attempt() {
    let mut s = PoulpeState::new();
    begin_init_attempt(&mut s);
    record_init_failure(&mut s, InitFailure::MotorConfig, 0);
    assert_eq!(after_init_step(&mut s, 0, false), InitAction::Retry);
    begin_init_attempt(&mut s);
    assert_eq!(s.motor_error_flags, [0, 0, 0]);
    assert_eq!(after_init_step(&mut s, 1, false), InitAction::Continue);
    assert_eq!(after_init_step(&mut s, 1, true), InitAction::Succeed);
    assert_eq!(s.get_state(), CiA402State::SwitchOnDisabled);
}

#[test]
fn fault_torque_off_even_with_saturated_counters() {
    let mut s = PoulpeState::new();
    record_init_failure(&mut s, InitFailure::MotorConfig, 0);
    let (mut f, mut q) = (usize::MAX, usize::MAX);
    let c = control_tick(&mut s, [true; 3], &mut f, &mut q, true);
    assert_eq!(c.torque_on, [false; 3]);
    assert!(s.is_fault());
}
