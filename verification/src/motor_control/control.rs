use vstd::prelude::*;

use crate::config::N_AXIS;
use crate::dynamixel::conversion::{is_nan_bits, nan_bits};
use crate::motor_control::foc::MotionMode;
use crate::motor_control::supervision::{emergency_stop_tick, spec_emergency_stop_tick};
use crate::state_machine::cia402_state_machine::CiA402State;
use crate::state_machine::poulpe_state::{
    flag_cleared, flag_set, HomingErrorFlag, MotorErrorFlag, PoulpeState,
};

verus! {

// ---------------------------------------------------------------------------
// Entering the fault
// ---------------------------------------------------------------------------

/// The state the board is in after a fault is raised: directly in fault while
/// initialising or already faulty, reacting to the fault otherwise.
pub open spec fn after_fault(s: CiA402State) -> CiA402State {
    if s == CiA402State::NotReadyToSwitchOn || s == CiA402State::Fault {
        CiA402State::Fault
    } else {
        CiA402State::FaultReactionActive
    }
}

/// Raising a fault twice is raising it once.
pub proof fn law_fault_idempotent(s: CiA402State)
    ensures
        after_fault(after_fault(s)) == after_fault(s),
{
}

// ---------------------------------------------------------------------------
// Start-up sequence
// ---------------------------------------------------------------------------

/// Start-up attempts before the board gives up.
pub const MAX_INIT_ATTEMPTS: usize = 2;

/// What the start-up sequence does after one of its steps.
#[derive(Debug, Clone, Copy, PartialEq, Eq, Structural)]
pub enum InitAction {
    /// Go on with the next step of this attempt.
    Continue,
    /// This attempt failed; start the next one.
    Retry,
    /// The last attempt failed; the board stays in fault.
    GiveUp,
    /// Every step of this attempt passed; the board is initialised.
    Succeed,
}

/// Starts an attempt of the start-up sequence: the board is initialising again and the
/// errors of a previous attempt are cleared.
pub fn begin_init_attempt(state: &mut PoulpeState)
    ensures
        final(state).state_machine.state == CiA402State::NotReadyToSwitchOn,
        final(state).state_machine.warning_active == old(state).state_machine.warning_active,
        forall|a: int| 0 <= a < N_AXIS ==> final(state).motor_error_flags[a] == 0,
        final(state).homing_error_flags == 0,
{
    state.set_init_state();
    state.clear_errors();
}

/// Decides what follows a step of attempt `attempt` (counted from 0) once its failures
/// are recorded; `last_step` tells whether it was the last step of the sequence. A
/// faulty board stops the attempt at once: it retries while attempts remain, otherwise
/// gives up. A board without fault goes on, and after the last step it is initialised
/// (switch on disabled).
pub fn after_init_step(state: &mut PoulpeState, attempt: usize, last_step: bool) -> (r:
    InitAction)
    requires
        attempt < MAX_INIT_ATTEMPTS,
    ensures
        old(state).state_machine.state == CiA402State::Fault ==> *final(state) == *old(state) && r
            == if attempt + 1 < MAX_INIT_ATTEMPTS {
            InitAction::Retry
        } else {
            InitAction::GiveUp
        },
        old(state).state_machine.state != CiA402State::Fault && last_step ==> r
            == InitAction::Succeed && final(state).state_machine.state
            == CiA402State::SwitchOnDisabled && final(state).state_machine.warning_active == old(
            state,
        ).state_machine.warning_active && final(state).motor_error_flags == old(
            state,
        ).motor_error_flags && final(state).homing_error_flags == old(state).homing_error_flags,
        old(state).state_machine.state != CiA402State::Fault && !last_step ==> r
            == InitAction::Continue && *final(state) == *old(state),
{
    if state.is_fault() {
        if attempt + 1 < MAX_INIT_ATTEMPTS {
            InitAction::Retry
        } else {
            InitAction::GiveUp
        }
    } else if last_step {
        state.notify_init_success();
        InitAction::Succeed
    } else {
        InitAction::Continue
    }
}

/// A step of the start-up sequence that failed.
#[derive(Debug, Clone, Copy, PartialEq, Eq, Structural)]
pub enum InitFailure {
    /// The configuration of a motor's controller and driver.
    MotorConfig,
    /// The set-up of the axis sensor bus.
    AxisSensorSetup,
    /// The first reading of the axis sensors.
    AxisSensorRead,
    /// A movement check of a motor.
    MotorCheck,
    /// The reading of the axis sensors after the motors moved.
    MovedSensorRead,
    /// An axis sensor that did not follow its motor.
    SensorAlignment,
}

/// The homing flags once `failure` has been recorded.
pub open spec fn init_failure_homing(failure: InitFailure, h: u8) -> u8 {
    match failure {
        InitFailure::MotorConfig => h,
        InitFailure::AxisSensorSetup => flag_set(h, HomingErrorFlag::AxisSensorReadFail.code()),
        InitFailure::AxisSensorRead => flag_set(h, HomingErrorFlag::AxisSensorReadFail.code()),
        InitFailure::MotorCheck => flag_set(h, HomingErrorFlag::MotorMovementCheckFail.code()),
        InitFailure::MovedSensorRead => flag_set(
            flag_set(h, HomingErrorFlag::AxisSensorReadFail.code()),
            HomingErrorFlag::MotorMovementCheckFail.code(),
        ),
        InitFailure::SensorAlignment => flag_set(h, HomingErrorFlag::AxisSensorAlignFail.code()),
    }
}

/// The flags of the motor concerned once `failure` has been recorded.
pub open spec fn init_failure_motor(failure: InitFailure, m: u8) -> u8 {
    match failure {
        InitFailure::MotorConfig => flag_set(m, MotorErrorFlag::ConfigFail.code()),
        InitFailure::MotorCheck => flag_set(m, MotorErrorFlag::MotorAlignFail.code()),
        InitFailure::SensorAlignment => flag_set(m, MotorErrorFlag::MotorAlignFail.code()),
        _ => m,
    }
}

/// Records that a start-up step failed for the motor `axis` (ignored for the steps that
/// concern the sensors as a whole): the board enters the fault and the flags of the
/// step are raised.
pub fn record_init_failure(state: &mut PoulpeState, failure: InitFailure, axis: usize)
    requires
        axis < N_AXIS,
    ensures
        final(state).state_machine.state == after_fault(old(state).state_machine.state),
        final(state).state_machine.warning_active == old(state).state_machine.warning_active,
        final(state).homing_error_flags == init_failure_homing(
            failure,
            old(state).homing_error_flags,
        ),
        final(state).motor_error_flags@ == old(state).motor_error_flags@.update(
            axis as int,
            init_failure_motor(failure, old(state).motor_error_flags[axis as int]),
        ),
{
    state.set_fault_state();
    match failure {
        InitFailure::MotorConfig => {
            state.set_motor_error_flag(axis, MotorErrorFlag::ConfigFail);
        },
        InitFailure::AxisSensorSetup | InitFailure::AxisSensorRead => {
            state.set_homing_error_flag(HomingErrorFlag::AxisSensorReadFail);
            assert(state.motor_error_flags@ =~= old(state).motor_error_flags@.update(
                axis as int,
                old(state).motor_error_flags[axis as int],
            ));
        },
        InitFailure::MotorCheck => {
            state.set_homing_error_flag(HomingErrorFlag::MotorMovementCheckFail);
            state.set_motor_error_flag(axis, MotorErrorFlag::MotorAlignFail);
        },
        InitFailure::MovedSensorRead => {
            state.set_homing_error_flag(HomingErrorFlag::AxisSensorReadFail);
            state.set_homing_error_flag(HomingErrorFlag::MotorMovementCheckFail);
            assert(state.motor_error_flags@ =~= old(state).motor_error_flags@.update(
                axis as int,
                old(state).motor_error_flags[axis as int],
            ));
        },
        InitFailure::SensorAlignment => {
            state.set_homing_error_flag(HomingErrorFlag::AxisSensorAlignFail);
            state.set_motor_error_flag(axis, MotorErrorFlag::MotorAlignFail);
        },
    }
}

/// Records the outcome of the index search and homing: `None` when the search could
/// not run (zeroing failed), otherwise the flag it reported, `NoError` on success. A
/// reported error raises the fault and its flag; success changes nothing.
pub fn record_homing_outcome(state: &mut PoulpeState, outcome: Option<HomingErrorFlag>)
    ensures
        match outcome {
            Some(HomingErrorFlag::NoError) => *final(state) == *old(state),
            Some(e) => final(state).state_machine.state == after_fault(
                old(state).state_machine.state,
            ) && final(state).homing_error_flags == flag_set(
                old(state).homing_error_flags,
                e.code(),
            ),
            None => final(state).state_machine.state == after_fault(
                old(state).state_machine.state,
            ) && final(state).homing_error_flags == flag_set(
                old(state).homing_error_flags,
                HomingErrorFlag::ZeroingFail.code(),
            ),
        },
        final(state).motor_error_flags == old(state).motor_error_flags,
        final(state).state_machine.warning_active == old(state).state_machine.warning_active,
{
    match outcome {
        Some(HomingErrorFlag::NoError) => {},
        Some(e) => {
            state.set_fault_state();
            state.set_homing_error_flag(e);
        },
        None => {
            state.set_fault_state();
            state.set_homing_error_flag(HomingErrorFlag::ZeroingFail);
        },
    }
}

// ---------------------------------------------------------------------------
// Faults detected while running
// ---------------------------------------------------------------------------

/// Records a fault of every motor marked in `faulty` (a bus voltage too low, a driver
/// signalling a fault): the board enters the fault once and `flag` is raised for each
/// such motor. Nothing changes when no motor is marked.
pub fn record_axis_faults(state: &mut PoulpeState, flag: MotorErrorFlag, faulty: [bool; N_AXIS])
    ensures
        final(state).state_machine.state == if exists|a: int| 0 <= a < N_AXIS && faulty[a] {
            after_fault(old(state).state_machine.state)
        } else {
            old(state).state_machine.state
        },
        final(state).state_machine.warning_active == old(state).state_machine.warning_active,
        final(state).homing_error_flags == old(state).homing_error_flags,
        forall|a: int|
            0 <= a < N_AXIS ==> final(state).motor_error_flags[a] == if faulty[a] {
                flag_set(old(state).motor_error_flags[a], flag.code())
            } else {
                old(state).motor_error_flags[a]
            },
{
    let ghost orig = *state;
    let mut i: usize = 0;
    while i < N_AXIS
        invariant
            i <= N_AXIS,
            orig == *old(state),
            state.state_machine.state == if exists|a: int| 0 <= a < i && faulty[a] {
                after_fault(orig.state_machine.state)
            } else {
                orig.state_machine.state
            },
            state.state_machine.warning_active == orig.state_machine.warning_active,
            state.homing_error_flags == orig.homing_error_flags,
            forall|a: int|
                0 <= a < N_AXIS ==> #[trigger] state.motor_error_flags[a] == if a < i && faulty[a] {
                    flag_set(orig.motor_error_flags[a], flag.code())
                } else {
                    orig.motor_error_flags[a]
                },
        decreases N_AXIS - i,
    {
        if faulty[i] {
            state.set_motor_error_flag(i, flag);
            state.set_fault_state();
        }
        proof {
            assert(forall|a: int| 0 <= a < i + 1 && faulty[a] ==> (0 <= a < i && faulty[a]) || a
                == i);
        }
        i = i + 1;
    }
}

/// Seconds the link to a driver or a sensor may stay down before the board stops.
pub const MAX_COMMUNICATION_DOWN_TIME: u64 = 3;

/// A link has been down for longer than allowed.
pub open spec fn communication_timed_out(down: bool, down_secs: u64) -> bool {
    down && down_secs > MAX_COMMUNICATION_DOWN_TIME
}

/// Checks a link that has been down for `down_secs` seconds (if `down`): past the
/// allowed time the board enters the fault and raises `homing_flag` and the flag
/// `motor_flag` of motor `axis` (`NoError` raises nothing).
pub fn supervise_communication(
    state: &mut PoulpeState,
    down: bool,
    down_secs: u64,
    axis: usize,
    motor_flag: MotorErrorFlag,
    homing_flag: HomingErrorFlag,
) -> (timed_out: bool)
    requires
        axis < N_AXIS,
    ensures
        timed_out == communication_timed_out(down, down_secs),
        timed_out ==> final(state).state_machine.state == after_fault(
            old(state).state_machine.state,
        ) && final(state).homing_error_flags == flag_set(
            old(state).homing_error_flags,
            homing_flag.code(),
        ) && final(state).motor_error_flags@ == old(state).motor_error_flags@.update(
            axis as int,
            flag_set(old(state).motor_error_flags[axis as int], motor_flag.code()),
        ),
        !timed_out ==> *final(state) == *old(state),
        final(state).state_machine.warning_active == old(state).state_machine.warning_active,
{
    if down && down_secs > MAX_COMMUNICATION_DOWN_TIME {
        state.set_fault_state();
        state.set_homing_error_flag(homing_flag);
        state.set_motor_error_flag(axis, motor_flag);
        true
    } else {
        false
    }
}

// ---------------------------------------------------------------------------
// Temperatures
// ---------------------------------------------------------------------------

/// Where the temperatures of one axis stand against the board's limits.
#[derive(Debug, Clone, Copy, PartialEq, Eq, Structural)]
pub enum TemperatureLevel {
    /// The board is above its maximum.
    BoardOverheated,
    /// The motor is above its maximum.
    MotorOverheated,
    /// The board or the motor is above the warning threshold.
    High,
    /// The board or the motor reads below the measurable range.
    BelowRange,
    /// Both are within their range.
    Normal,
}

/// The flags of a motor once the temperature level of its axis has been taken into
/// account: an overheated board or motor raises its error, a high temperature raises
/// the warning flag, and a normal temperature lowers it.
pub open spec fn temperature_flags(level: TemperatureLevel, m: u8) -> u8 {
    match level {
        TemperatureLevel::BoardOverheated => flag_set(m, MotorErrorFlag::OverTemperatureBoard.code()),
        TemperatureLevel::MotorOverheated => flag_set(m, MotorErrorFlag::OverTemperatureMotor.code()),
        TemperatureLevel::High => flag_set(m, MotorErrorFlag::HighTemperatureWarning.code()),
        TemperatureLevel::BelowRange => m,
        TemperatureLevel::Normal => flag_cleared(m, MotorErrorFlag::HighTemperatureWarning.code()),
    }
}

/// An axis is overheated.
pub open spec fn overheated(level: TemperatureLevel) -> bool {
    level == TemperatureLevel::BoardOverheated || level == TemperatureLevel::MotorOverheated
}

/// An axis deserves a warning.
pub open spec fn temperature_warning(level: TemperatureLevel) -> bool {
    level == TemperatureLevel::High || level == TemperatureLevel::BelowRange
}

/// Updates the state from the temperature level of every axis: the warning is raised
/// exactly when some axis is high or below range, the fault is entered when some axis is
/// overheated, and each motor's flags follow its level.
pub fn update_temperature_state(state: &mut PoulpeState, levels: [TemperatureLevel; N_AXIS])
    ensures
        final(state).state_machine.state == if exists|a: int|
            0 <= a < N_AXIS && overheated(#[trigger] levels[a]) {
            after_fault(old(state).state_machine.state)
        } else {
            old(state).state_machine.state
        },
        final(state).state_machine.warning_active == exists|a: int|
            0 <= a < N_AXIS && temperature_warning(#[trigger] levels[a]),
        final(state).homing_error_flags == old(state).homing_error_flags,
        forall|a: int|
            0 <= a < N_AXIS ==> final(state).motor_error_flags[a] == temperature_flags(
                levels[a],
                old(state).motor_error_flags[a],
            ),
{
    state.clear_warning_state();
    let mut i: usize = 0;
    while i < N_AXIS
        invariant
            i <= N_AXIS,
            state.state_machine.state == if exists|a: int|
                0 <= a < i && overheated(#[trigger] levels[a]) {
                after_fault(old(state).state_machine.state)
            } else {
                old(state).state_machine.state
            },
            state.state_machine.warning_active == exists|a: int|
                0 <= a < i && temperature_warning(#[trigger] levels[a]),
            state.homing_error_flags == old(state).homing_error_flags,
            forall|a: int|
                0 <= a < N_AXIS ==> state.motor_error_flags[a] == if a < i {
                    temperature_flags(levels[a], old(state).motor_error_flags[a])
                } else {
                    old(state).motor_error_flags[a]
                },
        decreases N_AXIS - i,
    {
        let ghost before = *state;
        match levels[i] {
            TemperatureLevel::BoardOverheated => {
                state.set_motor_error_flag(i, MotorErrorFlag::OverTemperatureBoard);
                state.set_fault_state();
            },
            TemperatureLevel::MotorOverheated => {
                state.set_motor_error_flag(i, MotorErrorFlag::OverTemperatureMotor);
                state.set_fault_state();
            },
            TemperatureLevel::High => {
                state.set_motor_error_flag(i, MotorErrorFlag::HighTemperatureWarning);
                state.set_warning_state();
            },
            TemperatureLevel::BelowRange => {
                state.set_warning_state();
            },
            TemperatureLevel::Normal => {
                if state.check_motor_error_flag(i, MotorErrorFlag::HighTemperatureWarning) {
                    state.clear_motor_error_flag(i, MotorErrorFlag::HighTemperatureWarning);
                } else {
                    proof {
                        lemma_clear_unraised(before.motor_error_flags[i as int]);
                    }
                }
            },
        }
        proof {
            assert(forall|a: int|
                0 <= a < i + 1 && overheated(#[trigger] levels[a]) ==> (0 <= a < i && overheated(
                    levels[a],
                )) || a == i);
            assert(forall|a: int|
                0 <= a < i + 1 && temperature_warning(#[trigger] levels[a]) ==> (0 <= a < i
                    && temperature_warning(levels[a])) || a == i);
        }
        i = i + 1;
    }
}

proof fn lemma_clear_unraised(m: u8)
    requires
        !(m & 4u8 == 4u8),
    ensures
        flag_cleared(m, 4u8) == m,
{
    assert(!(m & 4u8 == 4u8) ==> m & !4u8 == m) by (bit_vector);
}

// ---------------------------------------------------------------------------
// Values handed to the motors and read from the sensors
// ---------------------------------------------------------------------------

/// Milliseconds after which a feed-forward velocity no longer applies.
pub const VELOCITY_FEEDFORWARD_TIMEOUT_MS: u64 = 200;

/// A feed-forward velocity stamped at `stamp` is stale at `now`: it was never set, or
/// it is older than the timeout.
pub open spec fn feedforward_stale(stamp: Option<u64>, now: u64) -> bool {
    match stamp {
        None => true,
        Some(t) => now > t + VELOCITY_FEEDFORWARD_TIMEOUT_MS,
    }
}

/// The feed-forward velocity handed to the motors at `now`: the recorded one while it
/// is fresh, zero once it is stale.
pub fn feedforward_to_apply(velocity: [u32; N_AXIS], stamp: Option<u64>, now: u64) -> (r: [u32;
    N_AXIS])
    ensures
        feedforward_stale(stamp, now) ==> forall|a: int| 0 <= a < N_AXIS ==> r[a] == 0,
        !feedforward_stale(stamp, now) ==> r == velocity,
{
    let stale = match stamp {
        None => true,
        Some(t) => now >= t && now - t > VELOCITY_FEEDFORWARD_TIMEOUT_MS,
    };
    if stale {
        [0u32; N_AXIS]
    } else {
        velocity
    }
}

/// Merges one reading of the axis sensors (floats as bit patterns; `None` where the
/// sensor did not answer) into the previous values: an answered value replaces the
/// previous one unless it is NaN. Also tells which sensors did not answer.
pub fn merge_axis_sensors(previous: [u32; N_AXIS], readings: [Option<u32>; N_AXIS]) -> (r: (
    [u32; N_AXIS],
    [bool; N_AXIS],
))
    ensures
        forall|a: int|
            0 <= a < N_AXIS ==> r.0[a] == match readings[a] {
                Some(v) => if is_nan_bits(v) {
                    previous[a]
                } else {
                    v
                },
                None => previous[a],
            },
        forall|a: int| 0 <= a < N_AXIS ==> r.1[a] == (readings[a] is None),
{
    let mut values = previous;
    let mut missing = [false; N_AXIS];
    let mut i: usize = 0;
    while i < N_AXIS
        invariant
            i <= N_AXIS,
            forall|a: int|
                0 <= a < N_AXIS ==> values[a] == if a < i {
                    match readings[a] {
                        Some(v) => if is_nan_bits(v) {
                            previous[a]
                        } else {
                            v
                        },
                        None => previous[a],
                    }
                } else {
                    previous[a]
                },
            forall|a: int| 0 <= a < i ==> missing[a] == (readings[a] is None),
            forall|a: int| i <= a < N_AXIS ==> !missing[a],
        decreases N_AXIS - i,
    {
        match readings[i] {
            Some(v) => {
                if !nan_bits(v) {
                    values[i] = v;
                }
            },
            None => {
                missing[i] = true;
            },
        }
        i = i + 1;
    }
    (values, missing)
}

// ---------------------------------------------------------------------------
// Torque and mode of one control-loop tick
// ---------------------------------------------------------------------------

/// What one tick of the control loop hands to the motors: the torque switch of each
/// motor, and the motion mode it forces this tick (`None`: the mode stays as asked).
pub struct TickCommand {
    pub torque_on: [bool; N_AXIS],
    pub mode: Option<MotionMode>,
}

/// Every torque switch is off.
pub open spec fn all_off(t: [bool; N_AXIS]) -> bool {
    forall|a: int| 0 <= a < N_AXIS ==> !t[a]
}

/// Decides the torque and the mode of one control-loop tick from the board state and
/// the torque asked for (`at_rest`: every motor is nearly still and exerts little
/// torque).
/// - In fault the operation stops and cannot restart: torque off on every motor.
/// - While reacting to a fault the motors brake in the stopped mode; once they are at
///   rest after the allotted ticks, or in any case after twice as many, torque goes off
///   and the board enters the fault.
/// - While a quick stop is active the motors brake in the stopped mode; once it is over
///   (same rule) torque goes off, the position mode is set back, the board goes to
///   switch on disabled and the quick stop tick counter restarts.
/// - Otherwise the torque asked for is applied.
pub fn control_tick(
    state: &mut PoulpeState,
    requested: [bool; N_AXIS],
    fault_ticks: &mut usize,
    quick_stop_ticks: &mut usize,
    at_rest: bool,
) -> (r: TickCommand)
    requires
        old(state).state_machine.state == CiA402State::FaultReactionActive ==> *old(fault_ticks)
            < usize::MAX,
        old(state).state_machine.state == CiA402State::QuickStopActive ==> *old(
            quick_stop_ticks,
        ) < usize::MAX,
    ensures
        final(state).state_machine.warning_active == old(state).state_machine.warning_active,
        final(state).motor_error_flags == old(state).motor_error_flags,
        final(state).homing_error_flags == old(state).homing_error_flags,
        old(state).state_machine.state == CiA402State::Fault ==> {
            &&& all_off(r.torque_on)
            &&& r.mode is None
            &&& final(state).state_machine.state == CiA402State::Fault
            &&& *final(fault_ticks) == *old(fault_ticks)
            &&& *final(quick_stop_ticks) == *old(quick_stop_ticks)
        },
        old(state).state_machine.state == CiA402State::FaultReactionActive ==> {
            let (next, done) = spec_emergency_stop_tick(*old(fault_ticks), at_rest);
            &&& *final(fault_ticks) == next
            &&& *final(quick_stop_ticks) == *old(quick_stop_ticks)
            &&& r.mode == Some(MotionMode::Stopped)
            &&& done ==> all_off(r.torque_on) && final(state).state_machine.state
                == CiA402State::Fault
            &&& !done ==> r.torque_on == requested && final(state).state_machine.state
                == CiA402State::FaultReactionActive
        },
        old(state).state_machine.state == CiA402State::QuickStopActive ==> {
            let (next, done) = spec_emergency_stop_tick(*old(quick_stop_ticks), at_rest);
            &&& *final(fault_ticks) == *old(fault_ticks)
            &&& done ==> all_off(r.torque_on) && r.mode == Some(MotionMode::Position)
                && final(state).state_machine.state == CiA402State::SwitchOnDisabled
                && *final(quick_stop_ticks) == 0
            &&& !done ==> r.torque_on == requested && r.mode == Some(MotionMode::Stopped)
                && final(state).state_machine.state == CiA402State::QuickStopActive
                && *final(quick_stop_ticks) == next
        },
        old(state).state_machine.state != CiA402State::Fault && old(state).state_machine.state
            != CiA402State::FaultReactionActive && old(state).state_machine.state
            != CiA402State::QuickStopActive ==> {
            &&& r.torque_on == requested
            &&& r.mode is None
            &&& *final(state) == *old(state)
            &&& *final(fault_ticks) == *old(fault_ticks)
            &&& *final(quick_stop_ticks) == *old(quick_stop_ticks)
        },
{
    if state.is_fault() {
        TickCommand { torque_on: [false; N_AXIS], mode: None }
    } else if state.is_fault_reaction_state() {
        let (next, done) = emergency_stop_tick(*fault_ticks, at_rest);
        *fault_ticks = next;
        if done {
            state.notify_fault_reaction_done();
            TickCommand { torque_on: [false; N_AXIS], mode: Some(MotionMode::Stopped) }
        } else {
            TickCommand { torque_on: requested, mode: Some(MotionMode::Stopped) }
        }
    } else if state.state_machine.state == CiA402State::QuickStopActive {
        let (next, done) = emergency_stop_tick(*quick_stop_ticks, at_rest);
        if done {
            state.state_machine.set_state(CiA402State::SwitchOnDisabled);
            *quick_stop_ticks = 0;
            TickCommand { torque_on: [false; N_AXIS], mode: Some(MotionMode::Position) }
        } else {
            *quick_stop_ticks = next;
            TickCommand { torque_on: requested, mode: Some(MotionMode::Stopped) }
        }
    } else {
        TickCommand { torque_on: requested, mode: None }
    }
}

} // verus!
