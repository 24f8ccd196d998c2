use vstd::prelude::*;

use crate::config::N_AXIS;
use crate::dynamixel::handler::{
    holds_update, law_write_then_read_back, read_params, request_reply, request_update,
    write_update, MemoryUpdate, RegisterValues,
};
use crate::dynamixel::packet::instruction_packet::InstructionPacketView;
use crate::dynamixel::packet::status_packet::status_frame;
use crate::dynamixel::conversion::bool_byte;
use crate::dynamixel::register::{register_at, DynamixelRegister};
use crate::motor_control::foc::MotionMode;
use crate::motor_control::Pid;
use crate::state_machine::cia402_state_machine::CiA402State;
use crate::state_machine::poulpe_state::PoulpeState;

verus! {

/// The values shared between the communication tasks and the motor control, one per
/// axis. Floats are held as their IEEE-754 bit patterns, instants as milliseconds on the
/// board's clock.
#[derive(Debug, Clone, Copy, PartialEq, Eq)]
pub struct Memory {
    pub torque_on: [bool; N_AXIS],
    pub control_mode: MotionMode,
    pub control_word: u16,
    pub current_position: [u32; N_AXIS],
    pub current_velocity: [u32; N_AXIS],
    pub current_torque: [u32; N_AXIS],
    pub target_position: [u32; N_AXIS],
    pub target_velocity: [u32; N_AXIS],
    pub target_torque: [u32; N_AXIS],
    pub velocity_feedforward: [u32; N_AXIS],
    pub velocity_feedforward_timestamp: Option<u64>,
    pub target_set_timestamp: Option<u64>,
    pub flux_pid_gains: [Pid; N_AXIS],
    pub torque_pid_gains: [Pid; N_AXIS],
    pub velocity_pid_gains: [Pid; N_AXIS],
    pub position_pid_gains: [Pid; N_AXIS],
    pub board_temperatures: [u32; N_AXIS],
    pub motor_temperature: [u32; N_AXIS],
    pub bus_voltages: [u32; N_AXIS],
    pub uq_ud_limit: [i16; N_AXIS],
    pub torque_flux_limit: [u32; N_AXIS],
    pub velocity_limit: [u32; N_AXIS],
    pub torque_flux_limit_max: [u32; N_AXIS],
    pub velocity_limit_max: [u32; N_AXIS],
    pub axis_sensor: [u32; N_AXIS],
    pub hardware_zeros: [u32; N_AXIS],
    pub index_sensor: [u8; N_AXIS],
    pub error_led: bool,
    pub poulpe_state: PoulpeState,
}

/// Bit pattern of the float quiet NaN that marks a value the actuator could not report.
pub const F32_NAN_BITS: u32 = 0x7FC0_0000;

/// Bit pattern of the float 1.0.
pub const F32_ONE_BITS: u32 = 0x3F80_0000;

/// Number of values of a full state report: positions, velocities and torques.
pub const FULL_STATE_LEN: usize = 3 * N_AXIS;

/// Every entry of `a` is `v`.
pub open spec fn all_u32(a: [u32; N_AXIS], v: u32) -> bool {
    forall|i: int| 0 <= i < N_AXIS ==> a[i] == v
}

/// `r` is what the actuator reported, or `v` in every entry where it reported nothing.
pub open spec fn reported_u32(x: Option<[u32; N_AXIS]>, r: [u32; N_AXIS], v: u32) -> bool {
    match x {
        Some(a) => r == a,
        None => all_u32(r, v),
    }
}

/// `r` is the gains the actuator reported, or zero gains where it reported nothing.
pub open spec fn reported_gains(x: Option<[Pid; N_AXIS]>, r: [Pid; N_AXIS]) -> bool {
    match x {
        Some(a) => r == a,
        None => forall|i: int| 0 <= i < N_AXIS ==> r[i] == Pid { p: 0, i: 0 },
    }
}

/// What the actuator reported when the store was filled; `None` where a read failed.
pub struct ActuatorReadings {
    pub torque_on: Option<[bool; N_AXIS]>,
    pub control_mode: Option<[MotionMode; N_AXIS]>,
    pub current_position: Option<[u32; N_AXIS]>,
    pub current_velocity: Option<[u32; N_AXIS]>,
    pub current_torque: Option<[u32; N_AXIS]>,
    pub target_position: Option<[u32; N_AXIS]>,
    pub target_velocity: Option<[u32; N_AXIS]>,
    pub target_torque: Option<[u32; N_AXIS]>,
    pub axis_sensor: Option<[u32; N_AXIS]>,
    pub hardware_zeros: Option<[u32; N_AXIS]>,
    pub flux_pid_gains: Option<[Pid; N_AXIS]>,
    pub torque_pid_gains: Option<[Pid; N_AXIS]>,
    pub velocity_pid_gains: Option<[Pid; N_AXIS]>,
    pub position_pid_gains: Option<[Pid; N_AXIS]>,
    pub uq_ud_limit: Option<[i16; N_AXIS]>,
    pub torque_flux_limit_max: Option<[u32; N_AXIS]>,
    pub velocity_limit_max: Option<[u32; N_AXIS]>,
    pub velocity_feedforward: Option<[u32; N_AXIS]>,
    pub board_temperature: Option<[u32; N_AXIS]>,
    pub bus_voltage: Option<[u32; N_AXIS]>,
    pub index_sensor: [u8; N_AXIS],
}

/// The values the Dynamixel registers read, taken from the store.
pub open spec fn register_values(m: Memory) -> RegisterValues {
    RegisterValues {
        torque_on: m.torque_on,
        current_position: m.current_position,
        current_velocity: m.current_velocity,
        current_torque: m.current_torque,
        velocity_feedforward: m.velocity_feedforward,
        target_position: m.target_position,
        axis_sensor: m.axis_sensor,
        flux_pid: m.flux_pid_gains,
        torque_pid: m.torque_pid_gains,
        velocity_pid: m.velocity_pid_gains,
        position_pid: m.position_pid_gains,
        uq_ud_limit: m.uq_ud_limit,
        torque_flux_limit: m.torque_flux_limit,
        velocity_limit: m.velocity_limit,
        index_sensor: m.index_sensor,
    }
}

/// `new` is `old` once the change `u` of a write request has been applied at `now`: a
/// new target position is stamped, a new feed-forward velocity too, and a bare target
/// position brings the feed-forward velocity back to zero.
pub open spec fn applied(old: Memory, u: MemoryUpdate, now: u64, new: Memory) -> bool {
    match u {
        MemoryUpdate::TorqueOn(a) => new == (Memory { torque_on: a, ..old }),
        MemoryUpdate::FluxPid(g) => new == (Memory { flux_pid_gains: g, ..old }),
        MemoryUpdate::TorquePid(g) => new == (Memory { torque_pid_gains: g, ..old }),
        MemoryUpdate::VelocityPid(g) => new == (Memory { velocity_pid_gains: g, ..old }),
        MemoryUpdate::PositionPid(g) => new == (Memory { position_pid_gains: g, ..old }),
        MemoryUpdate::UqUdLimit(l) => new == (Memory { uq_ud_limit: l, ..old }),
        MemoryUpdate::TorqueFluxLimit(l) => new == (Memory { torque_flux_limit: l, ..old }),
        MemoryUpdate::VelocityLimit(l) => new == (Memory { velocity_limit: l, ..old }),
        MemoryUpdate::VelocityFeedforward(v) => new == (Memory {
            velocity_feedforward: v,
            velocity_feedforward_timestamp: Some(now),
            ..old
        }),
        MemoryUpdate::TargetPosition(t) => new == (Memory {
            target_position: t,
            target_set_timestamp: Some(now),
            velocity_feedforward: new.velocity_feedforward,
            velocity_feedforward_timestamp: Some(now),
            ..old
        }) && all_u32(new.velocity_feedforward, 0),
        MemoryUpdate::TargetPositionWithVelocityFF(t, v) => new == (Memory {
            target_position: t,
            target_set_timestamp: Some(now),
            velocity_feedforward: v,
            velocity_feedforward_timestamp: Some(now),
            ..old
        }),
        MemoryUpdate::TargetPositionOnly(t) => new == (Memory {
            target_position: t,
            target_set_timestamp: Some(now),
            ..old
        }),
    }
}

fn reported_or(x: Option<[u32; N_AXIS]>, v: u32) -> (r: [u32; N_AXIS])
    ensures
        reported_u32(x, r, v),
{
    match x {
        Some(a) => a,
        None => [v; N_AXIS],
    }
}

fn gains_or_zero(x: Option<[Pid; N_AXIS]>) -> (r: [Pid; N_AXIS])
    ensures
        reported_gains(x, r),
{
    match x {
        Some(a) => a,
        None => [Pid { p: 0, i: 0 };N_AXIS],
    }
}

/// The store of the shared values; every access goes through its methods.
pub struct SharedMemory {
    inner: Memory,
}

impl View for SharedMemory {
    type V = Memory;

    closed spec fn view(&self) -> Memory {
        self.inner
    }
}

impl SharedMemory {
    /// The store before the actuator has been read: switched off, in torque mode, every
    /// value zero, no index detected and no instant recorded.
    pub fn default() -> (r: Self)
        ensures
            forall|a: int| 0 <= a < N_AXIS ==> !r@.torque_on[a],
            r@.control_mode == MotionMode::Torque,
            r@.control_word == 0,
            all_u32(r@.current_position, 0),
            all_u32(r@.current_velocity, 0),
            all_u32(r@.current_torque, 0),
            all_u32(r@.target_position, 0),
            all_u32(r@.target_velocity, 0),
            all_u32(r@.target_torque, 0),
            all_u32(r@.velocity_feedforward, 0),
            r@.velocity_feedforward_timestamp is None,
            r@.target_set_timestamp is None,
            reported_gains(None, r@.flux_pid_gains),
            reported_gains(None, r@.torque_pid_gains),
            reported_gains(None, r@.velocity_pid_gains),
            reported_gains(None, r@.position_pid_gains),
            all_u32(r@.board_temperatures, 0),
            all_u32(r@.motor_temperature, 0),
            all_u32(r@.bus_voltages, 0),
            forall|a: int| 0 <= a < N_AXIS ==> r@.uq_ud_limit[a] == 0,
            all_u32(r@.torque_flux_limit, 0),
            all_u32(r@.velocity_limit, 0),
            all_u32(r@.torque_flux_limit_max, 0),
            all_u32(r@.velocity_limit_max, 0),
            all_u32(r@.axis_sensor, 0),
            all_u32(r@.hardware_zeros, 0),
            forall|a: int| 0 <= a < N_AXIS ==> r@.index_sensor[a] == 0xff,
            !r@.error_led,
            r@.poulpe_state.state_machine.state == CiA402State::NotReadyToSwitchOn,
            !r@.poulpe_state.state_machine.warning_active,
            forall|a: int| 0 <= a < N_AXIS ==> r@.poulpe_state.motor_error_flags[a] == 0,
            r@.poulpe_state.homing_error_flags == 0,
    {
        let zero_gains = [Pid { p: 0, i: 0 };N_AXIS];
        SharedMemory {
            inner: Memory {
                torque_on: [false; N_AXIS],
                control_mode: MotionMode::Torque,
                control_word: 0,
                current_position: [0u32; N_AXIS],
                current_velocity: [0u32; N_AXIS],
                current_torque: [0u32; N_AXIS],
                target_position: [0u32; N_AXIS],
                target_velocity: [0u32; N_AXIS],
                target_torque: [0u32; N_AXIS],
                velocity_feedforward: [0u32; N_AXIS],
                velocity_feedforward_timestamp: None,
                target_set_timestamp: None,
                flux_pid_gains: zero_gains,
                torque_pid_gains: zero_gains,
                velocity_pid_gains: zero_gains,
                position_pid_gains: zero_gains,
                board_temperatures: [0u32; N_AXIS],
                motor_temperature: [0u32; N_AXIS],
                bus_voltages: [0u32; N_AXIS],
                uq_ud_limit: [0i16; N_AXIS],
                torque_flux_limit: [0u32; N_AXIS],
                velocity_limit: [0u32; N_AXIS],
                torque_flux_limit_max: [0u32; N_AXIS],
                velocity_limit_max: [0u32; N_AXIS],
                axis_sensor: [0u32; N_AXIS],
                hardware_zeros: [0u32; N_AXIS],
                index_sensor: [0xffu8; N_AXIS],
                error_led: false,
                poulpe_state: PoulpeState::default(),
            },
        }
    }

    /// Fills the store from what the actuator reported, at the instant `now`. A value the
    /// actuator could not report reads NaN for positions, velocities, torques and sensor
    /// angles, zero elsewhere; a missing mode reads `Stopped`; both limits start at 1.0.
    pub fn init(&mut self, readings: &ActuatorReadings, now: u64)
        ensures
            match readings.torque_on {
                Some(v) => final(self)@.torque_on == v,
                None => forall|a: int| 0 <= a < N_AXIS ==> !final(self)@.torque_on[a],
            },
            final(self)@.control_mode == match readings.control_mode {
                Some(m) => m[0],
                None => MotionMode::Stopped,
            },
            final(self)@.control_word == 0,
            reported_u32(readings.current_position, final(self)@.current_position, F32_NAN_BITS),
            reported_u32(readings.current_velocity, final(self)@.current_velocity, F32_NAN_BITS),
            reported_u32(readings.current_torque, final(self)@.current_torque, F32_NAN_BITS),
            reported_u32(readings.target_position, final(self)@.target_position, F32_NAN_BITS),
            reported_u32(readings.target_velocity, final(self)@.target_velocity, F32_NAN_BITS),
            reported_u32(readings.target_torque, final(self)@.target_torque, F32_NAN_BITS),
            reported_u32(readings.axis_sensor, final(self)@.axis_sensor, F32_NAN_BITS),
            reported_u32(readings.hardware_zeros, final(self)@.hardware_zeros, F32_NAN_BITS),
            final(self)@.velocity_feedforward_timestamp == Some(now),
            final(self)@.target_set_timestamp == Some(now),
            reported_gains(readings.flux_pid_gains, final(self)@.flux_pid_gains),
            reported_gains(readings.torque_pid_gains, final(self)@.torque_pid_gains),
            reported_gains(readings.velocity_pid_gains, final(self)@.velocity_pid_gains),
            reported_gains(readings.position_pid_gains, final(self)@.position_pid_gains),
            match readings.uq_ud_limit {
                Some(v) => final(self)@.uq_ud_limit == v,
                None => forall|a: int| 0 <= a < N_AXIS ==> final(self)@.uq_ud_limit[a] == 0,
            },
            all_u32(final(self)@.torque_flux_limit, F32_ONE_BITS),
            all_u32(final(self)@.velocity_limit, F32_ONE_BITS),
            reported_u32(readings.torque_flux_limit_max, final(self)@.torque_flux_limit_max, 0),
            reported_u32(readings.velocity_limit_max, final(self)@.velocity_limit_max, 0),
            reported_u32(readings.velocity_feedforward, final(self)@.velocity_feedforward, 0),
            reported_u32(readings.board_temperature, final(self)@.board_temperatures, 0),
            all_u32(final(self)@.motor_temperature, 0),
            reported_u32(readings.bus_voltage, final(self)@.bus_voltages, 0),
            final(self)@.index_sensor == readings.index_sensor,
            !final(self)@.error_led,
            final(self)@.poulpe_state.state_machine.state == CiA402State::NotReadyToSwitchOn,
            !final(self)@.poulpe_state.state_machine.warning_active,
            forall|a: int| 0 <= a < N_AXIS ==> final(self)@.poulpe_state.motor_error_flags[a] == 0,
            final(self)@.poulpe_state.homing_error_flags == 0,
    {
        self.inner = Memory {
            torque_on: match readings.torque_on {
                Some(v) => v,
                None => [false; N_AXIS],
            },
            control_mode: match readings.control_mode {
                Some(m) => m[0],
                None => MotionMode::Stopped,
            },
            control_word: 0,
            current_position: reported_or(readings.current_position, F32_NAN_BITS),
            current_velocity: reported_or(readings.current_velocity, F32_NAN_BITS),
            current_torque: reported_or(readings.current_torque, F32_NAN_BITS),
            target_position: reported_or(readings.target_position, F32_NAN_BITS),
            target_velocity: reported_or(readings.target_velocity, F32_NAN_BITS),
            target_torque: reported_or(readings.target_torque, F32_NAN_BITS),
            velocity_feedforward_timestamp: Some(now),
            target_set_timestamp: Some(now),
            axis_sensor: reported_or(readings.axis_sensor, F32_NAN_BITS),
            hardware_zeros: reported_or(readings.hardware_zeros, F32_NAN_BITS),
            flux_pid_gains: gains_or_zero(readings.flux_pid_gains),
            torque_pid_gains: gains_or_zero(readings.torque_pid_gains),
            velocity_pid_gains: gains_or_zero(readings.velocity_pid_gains),
            position_pid_gains: gains_or_zero(readings.position_pid_gains),
            uq_ud_limit: match readings.uq_ud_limit {
                Some(v) => v,
                None => [0i16; N_AXIS],
            },
            torque_flux_limit: [F32_ONE_BITS; N_AXIS],
            velocity_limit: [F32_ONE_BITS; N_AXIS],
            torque_flux_limit_max: reported_or(readings.torque_flux_limit_max, 0),
            velocity_limit_max: reported_or(readings.velocity_limit_max, 0),
            velocity_feedforward: reported_or(readings.velocity_feedforward, 0),
            board_temperatures: reported_or(readings.board_temperature, 0),
            motor_temperature: [0u32; N_AXIS],
            bus_voltages: reported_or(readings.bus_voltage, 0),
            index_sensor: readings.index_sensor,
            error_led: false,
            poulpe_state: PoulpeState::new(),
        };
    }

    /// A copy of every value at once.
    pub fn snapshot(&self) -> (r: Memory)
        ensures
            r == self@,
    {
        self.inner
    }

    /// Records a new target position, stamped with the instant `now`.
    pub fn set_target_position(&mut self, pos: [u32; N_AXIS], now: u64)
        ensures
            final(self)@ == (Memory {
                target_position: pos,
                target_set_timestamp: Some(now),
                ..old(self)@
            }),
    {
        self.inner.target_position = pos;
        self.inner.target_set_timestamp = Some(now);
    }

    /// Records a new feed-forward velocity, stamped with the instant `now`.
    pub fn set_velocity_feedforward(&mut self, vel: [u32; N_AXIS], now: u64)
        ensures
            final(self)@ == (Memory {
                velocity_feedforward: vel,
                velocity_feedforward_timestamp: Some(now),
                ..old(self)@
            }),
    {
        self.inner.velocity_feedforward = vel;
        self.inner.velocity_feedforward_timestamp = Some(now);
    }

    /// Positions, then velocities, then torques of every axis.
    pub fn get_full_state(&self) -> (r: [u32; FULL_STATE_LEN])
        ensures
            forall|a: int|
                0 <= a < N_AXIS ==> r[a] == self@.current_position[a] && r[N_AXIS + a]
                    == self@.current_velocity[a] && r[2 * N_AXIS + a] == self@.current_torque[a],
    {
        let mut state = [0u32; FULL_STATE_LEN];
        let mut a: usize = 0;
        while a < N_AXIS
            invariant
                a <= N_AXIS,
                forall|b: int|
                    0 <= b < a ==> state[b] == self@.current_position[b] && state[N_AXIS + b]
                        == self@.current_velocity[b] && state[2 * N_AXIS + b]
                        == self@.current_torque[b],
            decreases N_AXIS - a,
        {
            state[a] = self.inner.current_position[a];
            state[N_AXIS + a] = self.inner.current_velocity[a];
            state[2 * N_AXIS + a] = self.inner.current_torque[a];
            a = a + 1;
        }
        state
    }

    /// The values the Dynamixel registers read.
    pub fn values(&self) -> (r: RegisterValues)
        ensures
            r == register_values(self@),
    {
        RegisterValues {
            torque_on: self.inner.torque_on,
            current_position: self.inner.current_position,
            current_velocity: self.inner.current_velocity,
            current_torque: self.inner.current_torque,
            velocity_feedforward: self.inner.velocity_feedforward,
            target_position: self.inner.target_position,
            axis_sensor: self.inner.axis_sensor,
            flux_pid: self.inner.flux_pid_gains,
            torque_pid: self.inner.torque_pid_gains,
            velocity_pid: self.inner.velocity_pid_gains,
            position_pid: self.inner.position_pid_gains,
            uq_ud_limit: self.inner.uq_ud_limit,
            torque_flux_limit: self.inner.torque_flux_limit,
            velocity_limit: self.inner.velocity_limit,
            index_sensor: self.inner.index_sensor,
        }
    }

    /// Applies, at the instant `now`, the change a write request asked for.
    pub fn apply(&mut self, update: MemoryUpdate, now: u64)
        ensures
            applied(old(self)@, update, now, final(self)@),
    {
        match update {
            MemoryUpdate::TorqueOn(on) => self.set_torque_on(on),
            MemoryUpdate::FluxPid(g) => self.set_flux_pid_gains(g),
            MemoryUpdate::TorquePid(g) => self.set_torque_pid_gains(g),
            MemoryUpdate::VelocityPid(g) => self.set_velocity_pid_gains(g),
            MemoryUpdate::PositionPid(g) => self.set_position_pid_gains(g),
            MemoryUpdate::UqUdLimit(l) => self.set_uq_ud_limit(l),
            MemoryUpdate::TorqueFluxLimit(l) => self.set_torque_flux_limit(l),
            MemoryUpdate::VelocityLimit(l) => self.set_velocity_limit(l),
            MemoryUpdate::VelocityFeedforward(v) => self.set_velocity_feedforward(v, now),
            MemoryUpdate::TargetPosition(t) => {
                self.set_target_position(t, now);
                self.set_velocity_feedforward([0u32; N_AXIS], now);
            },
            MemoryUpdate::TargetPositionWithVelocityFF(t, v) => {
                self.set_target_position(t, now);
                self.set_velocity_feedforward(v, now);
            },
            MemoryUpdate::TargetPositionOnly(t) => self.set_target_position(t, now),
        }
    }

    pub fn get_torque_on(&self) -> (r: [bool; N_AXIS])
        ensures
            r == self@.torque_on,
    {
        self.inner.torque_on
    }

    pub fn set_torque_on(&mut self, on: [bool; N_AXIS])
        ensures
            final(self)@ == (Memory { torque_on: on, ..old(self)@ }),
    {
        self.inner.torque_on = on;
    }

    pub fn get_control_mode(&self) -> (r: MotionMode)
        ensures
            r == self@.control_mode,
    {
        self.inner.control_mode
    }

    pub fn set_control_mode(&mut self, mode: MotionMode)
        ensures
            final(self)@ == (Memory { control_mode: mode, ..old(self)@ }),
    {
        self.inner.control_mode = mode;
    }

    pub fn get_control_word(&self) -> (r: u16)
        ensures
            r == self@.control_word,
    {
        self.inner.control_word
    }

    pub fn set_control_word(&mut self, word: u16)
        ensures
            final(self)@ == (Memory { control_word: word, ..old(self)@ }),
    {
        self.inner.control_word = word;
    }

    pub fn get_current_position(&self) -> (r: [u32; N_AXIS])
        ensures
            r == self@.current_position,
    {
        self.inner.current_position
    }

    pub fn set_current_position(&mut self, pos: [u32; N_AXIS])
        ensures
            final(self)@ == (Memory { current_position: pos, ..old(self)@ }),
    {
        self.inner.current_position = pos;
    }

    pub fn get_target_position(&self) -> (r: [u32; N_AXIS])
        ensures
            r == self@.target_position,
    {
        self.inner.target_position
    }

    pub fn get_current_velocity(&self) -> (r: [u32; N_AXIS])
        ensures
            r == self@.current_velocity,
    {
        self.inner.current_velocity
    }

    pub fn set_current_velocity(&mut self, vel: [u32; N_AXIS])
        ensures
            final(self)@ == (Memory { current_velocity: vel, ..old(self)@ }),
    {
        self.inner.current_velocity = vel;
    }

    pub fn get_target_velocity(&self) -> (r: [u32; N_AXIS])
        ensures
            r == self@.target_velocity,
    {
        self.inner.target_velocity
    }

    pub fn set_target_velocity(&mut self, vel: [u32; N_AXIS])
        ensures
            final(self)@ == (Memory { target_velocity: vel, ..old(self)@ }),
    {
        self.inner.target_velocity = vel;
    }

    pub fn get_velocity_feedforward(&self) -> (r: [u32; N_AXIS])
        ensures
            r == self@.velocity_feedforward,
    {
        self.inner.velocity_feedforward
    }

    pub fn get_current_torque(&self) -> (r: [u32; N_AXIS])
        ensures
            r == self@.current_torque,
    {
        self.inner.current_torque
    }

    pub fn set_current_torque(&mut self, torque: [u32; N_AXIS])
        ensures
            final(self)@ == (Memory { current_torque: torque, ..old(self)@ }),
    {
        self.inner.current_torque = torque;
    }

    pub fn get_target_torque(&self) -> (r: [u32; N_AXIS])
        ensures
            r == self@.target_torque,
    {
        self.inner.target_torque
    }

    pub fn set_target_torque(&mut self, torque: [u32; N_AXIS])
        ensures
            final(self)@ == (Memory { target_torque: torque, ..old(self)@ }),
    {
        self.inner.target_torque = torque;
    }

    pub fn get_axis_sensor(&self) -> (r: [u32; N_AXIS])
        ensures
            r == self@.axis_sensor,
    {
        self.inner.axis_sensor
    }

    pub fn set_axis_sensor(&mut self, sensor: [u32; N_AXIS])
        ensures
            final(self)@ == (Memory { axis_sensor: sensor, ..old(self)@ }),
    {
        self.inner.axis_sensor = sensor;
    }

    pub fn get_hardware_zeros(&self) -> (r: [u32; N_AXIS])
        ensures
            r == self@.hardware_zeros,
    {
        self.inner.hardware_zeros
    }

    pub fn set_hardware_zeros(&mut self, zeros: [u32; N_AXIS])
        ensures
            final(self)@ == (Memory { hardware_zeros: zeros, ..old(self)@ }),
    {
        self.inner.hardware_zeros = zeros;
    }

    pub fn get_poulpe_state(&self) -> (r: PoulpeState)
        ensures
            r == self@.poulpe_state,
    {
        self.inner.poulpe_state
    }

    pub fn set_poulpe_state(&mut self, state: PoulpeState)
        ensures
            final(self)@ == (Memory { poulpe_state: state, ..old(self)@ }),
    {
        self.inner.poulpe_state = state;
    }

    pub fn get_error_led(&self) -> (r: bool)
        ensures
            r == self@.error_led,
    {
        self.inner.error_led
    }

    pub fn set_error_led(&mut self, error: bool)
        ensures
            final(self)@ == (Memory { error_led: error, ..old(self)@ }),
    {
        self.inner.error_led = error;
    }

    pub fn get_flux_pid_gains(&self) -> (r: [Pid; N_AXIS])
        ensures
            r == self@.flux_pid_gains,
    {
        self.inner.flux_pid_gains
    }

    pub fn set_flux_pid_gains(&mut self, gains: [Pid; N_AXIS])
        ensures
            final(self)@ == (Memory { flux_pid_gains: gains, ..old(self)@ }),
    {
        self.inner.flux_pid_gains = gains;
    }

    pub fn get_torque_pid_gains(&self) -> (r: [Pid; N_AXIS])
        ensures
            r == self@.torque_pid_gains,
    {
        self.inner.torque_pid_gains
    }

    pub fn set_torque_pid_gains(&mut self, gains: [Pid; N_AXIS])
        ensures
            final(self)@ == (Memory { torque_pid_gains: gains, ..old(self)@ }),
    {
        self.inner.torque_pid_gains = gains;
    }

    pub fn get_velocity_pid_gains(&self) -> (r: [Pid; N_AXIS])
        ensures
            r == self@.velocity_pid_gains,
    {
        self.inner.velocity_pid_gains
    }

    pub fn set_velocity_pid_gains(&mut self, gains: [Pid; N_AXIS])
        ensures
            final(self)@ == (Memory { velocity_pid_gains: gains, ..old(self)@ }),
    {
        self.inner.velocity_pid_gains = gains;
    }

    pub fn get_position_pid_gains(&self) -> (r: [Pid; N_AXIS])
        ensures
            r == self@.position_pid_gains,
    {
        self.inner.position_pid_gains
    }

    pub fn set_position_pid_gains(&mut self, gains: [Pid; N_AXIS])
        ensures
            final(self)@ == (Memory { position_pid_gains: gains, ..old(self)@ }),
    {
        self.inner.position_pid_gains = gains;
    }

    pub fn get_uq_ud_limit(&self) -> (r: [i16; N_AXIS])
        ensures
            r == self@.uq_ud_limit,
    {
        self.inner.uq_ud_limit
    }

    pub fn set_uq_ud_limit(&mut self, limit: [i16; N_AXIS])
        ensures
            final(self)@ == (Memory { uq_ud_limit: limit, ..old(self)@ }),
    {
        self.inner.uq_ud_limit = limit;
    }

    pub fn get_torque_flux_limit(&self) -> (r: [u32; N_AXIS])
        ensures
            r == self@.torque_flux_limit,
    {
        self.inner.torque_flux_limit
    }

    pub fn set_torque_flux_limit(&mut self, limit: [u32; N_AXIS])
        ensures
            final(self)@ == (Memory { torque_flux_limit: limit, ..old(self)@ }),
    {
        self.inner.torque_flux_limit = limit;
    }

    pub fn get_velocity_limit(&self) -> (r: [u32; N_AXIS])
        ensures
            r == self@.velocity_limit,
    {
        self.inner.velocity_limit
    }

    pub fn set_velocity_limit(&mut self, limit: [u32; N_AXIS])
        ensures
            final(self)@ == (Memory { velocity_limit: limit, ..old(self)@ }),
    {
        self.inner.velocity_limit = limit;
    }

    pub fn get_torque_flux_limit_max(&self) -> (r: [u32; N_AXIS])
        ensures
            r == self@.torque_flux_limit_max,
    {
        self.inner.torque_flux_limit_max
    }

    pub fn set_torque_flux_limit_max(&mut self, limit: [u32; N_AXIS])
        ensures
            final(self)@ == (Memory { torque_flux_limit_max: limit, ..old(self)@ }),
    {
        self.inner.torque_flux_limit_max = limit;
    }

    pub fn get_velocity_limit_max(&self) -> (r: [u32; N_AXIS])
        ensures
            r == self@.velocity_limit_max,
    {
        self.inner.velocity_limit_max
    }

    pub fn set_velocity_limit_max(&mut self, limit: [u32; N_AXIS])
        ensures
            final(self)@ == (Memory { velocity_limit_max: limit, ..old(self)@ }),
    {
        self.inner.velocity_limit_max = limit;
    }

    pub fn get_velocity_feedforward_timestamp(&self) -> (r: Option<u64>)
        ensures
            r == self@.velocity_feedforward_timestamp,
    {
        self.inner.velocity_feedforward_timestamp
    }

    pub fn get_target_set_timestamp(&self) -> (r: Option<u64>)
        ensures
            r == self@.target_set_timestamp,
    {
        self.inner.target_set_timestamp
    }

    pub fn get_board_temperature(&self) -> (r: [u32; N_AXIS])
        ensures
            r == self@.board_temperatures,
    {
        self.inner.board_temperatures
    }

    pub fn set_board_temperature(&mut self, temp: [u32; N_AXIS])
        ensures
            final(self)@ == (Memory { board_temperatures: temp, ..old(self)@ }),
    {
        self.inner.board_temperatures = temp;
    }

    pub fn get_motor_temperature(&self) -> (r: [u32; N_AXIS])
        ensures
            r == self@.motor_temperature,
    {
        self.inner.motor_temperature
    }

    pub fn set_motor_temperature(&mut self, temp: [u32; N_AXIS])
        ensures
            final(self)@ == (Memory { motor_temperature: temp, ..old(self)@ }),
    {
        self.inner.motor_temperature = temp;
    }

    pub fn get_bus_voltage(&self) -> (r: [u32; N_AXIS])
        ensures
            r == self@.bus_voltages,
    {
        self.inner.bus_voltages
    }

    pub fn set_bus_voltage(&mut self, volt: [u32; N_AXIS])
        ensures
            final(self)@ == (Memory { bus_voltages: volt, ..old(self)@ }),
    {
        self.inner.bus_voltages = volt;
    }

    pub fn get_index_sensor(&self) -> (r: [u8; N_AXIS])
        ensures
            r == self@.index_sensor,
    {
        self.inner.index_sensor
    }

    pub fn set_index_sensor(&mut self, index: [u8; N_AXIS])
        ensures
            final(self)@ == (Memory { index_sensor: index, ..old(self)@ }),
    {
        self.inner.index_sensor = index;
    }
}

/// Once the change of a write request has been applied, the values the registers read
/// carry what was written.
pub proof fn law_applied_update_is_held(old: Memory, u: MemoryUpdate, now: u64, new: Memory)
    requires
        applied(old, u, now, new),
    ensures
        holds_update(register_values(new), u@),
{
}

/// A write to a torque switch, a limit, a feed-forward velocity or a target position,
/// once applied to the store, is what a read of the same register answers: the written
/// bytes, and for torque switches one byte 0 or 1 each.
pub proof fn law_store_write_then_read_back(
    r: DynamixelRegister,
    data: Seq<u8>,
    u: MemoryUpdate,
    old: Memory,
    now: u64,
    new: Memory,
)
    requires
        r == DynamixelRegister::TorqueEnable || r == DynamixelRegister::UqUdLimit || r
            == DynamixelRegister::TorqueFluxLimit || r == DynamixelRegister::VelocityLimit || r
            == DynamixelRegister::FeedforwardVelocity || r == DynamixelRegister::TargetPosition,
        write_update(r, data) == Some(u@),
        applied(old, u, now, new),
    ensures
        r == DynamixelRegister::TorqueEnable ==> read_params(r, register_values(new)) == Some(
            data.map_values(|b: u8| bool_byte(b != 0)),
        ),
        r != DynamixelRegister::TorqueEnable ==> read_params(r, register_values(new)) == Some(
            data,
        ),
{
    law_applied_update_is_held(old, u, now, new);
    law_write_then_read_back(r, data, register_values(new));
}


/// Over the bus: once the change of an accepted write request to a limit, a
/// feed-forward velocity or a target position has been applied to the store, a read
/// request of the same register is answered with a status packet carrying exactly the
/// bytes that were written.
pub proof fn law_bus_write_then_read_back(
    write: InstructionPacketView,
    read: InstructionPacketView,
    u: MemoryUpdate,
    old: Memory,
    now: u64,
    new: Memory,
    id: u8,
    error: u8,
)
    requires
        write is WriteData,
        read is ReadData,
        read->ReadData_address == write->WriteData_address,
        register_at(write->WriteData_address) == Some(DynamixelRegister::UqUdLimit)
            || register_at(write->WriteData_address) == Some(DynamixelRegister::TorqueFluxLimit)
            || register_at(write->WriteData_address) == Some(DynamixelRegister::VelocityLimit)
            || register_at(write->WriteData_address) == Some(
            DynamixelRegister::FeedforwardVelocity,
        ) || register_at(write->WriteData_address) == Some(DynamixelRegister::TargetPosition),
        request_update(write) == Some(u@),
        applied(old, u, now, new),
    ensures
        request_reply(read, id, error, register_values(new)) == Some(
            status_frame(id, error, write->WriteData_data),
        ),
{
    let r = register_at(write->WriteData_address)->Some_0;
    law_store_write_then_read_back(r, write->WriteData_data, u, old, now, new);
}

} // verus!
