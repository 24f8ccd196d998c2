use vstd::prelude::*;

use crate::config::N_AXIS;

verus! {

/// General status of an Orbita board (same codes as the Poulpe board status).
#[derive(Debug, Clone, Copy, PartialEq, Eq, Structural)]
pub enum BoardStatus {
    Unknown,
    Init,
    InitError,
    Operational,
    OperationalWithWarning,
    RuntimeError,
}

impl BoardStatus {
    /// Status byte of the status.
    pub open spec fn code(self) -> u8 {
        match self {
            BoardStatus::Unknown => 0,
            BoardStatus::Init => 1,
            BoardStatus::InitError => 2,
            BoardStatus::Operational => 4,
            BoardStatus::OperationalWithWarning => 8,
            BoardStatus::RuntimeError => 16,
        }
    }

    /// Status byte of the status.
    pub fn to_u8(self) -> (r: u8)
        ensures
            r == self.code(),
    {
        match self {
            BoardStatus::Unknown => 0,
            BoardStatus::Init => 1,
            BoardStatus::InitError => 2,
            BoardStatus::Operational => 4,
            BoardStatus::OperationalWithWarning => 8,
            BoardStatus::RuntimeError => 16,
        }
    }
}

/// Error codes of a motor.
#[derive(Debug, Clone, Copy, PartialEq, Eq, Structural)]
pub enum MotorError {
    NoError,
    ConfigFail,
    MotorAlignFail,
    HighTemperatureWarning,
    OverTemperature,
    OverCurrent,
    LowBusVoltage,
    CommunicationFail,
}

impl MotorError {
    /// Bit of the error in a motor's error byte.
    pub open spec fn code(self) -> u8 {
        match self {
            MotorError::NoError => 0,
            MotorError::ConfigFail => 1,
            MotorError::MotorAlignFail => 2,
            MotorError::HighTemperatureWarning => 4,
            MotorError::OverTemperature => 8,
            MotorError::OverCurrent => 16,
            MotorError::LowBusVoltage => 32,
            MotorError::CommunicationFail => 64,
        }
    }

    /// Bit of the error in a motor's error byte.
    pub fn to_u8(self) -> (r: u8)
        ensures
            r == self.code(),
    {
        match self {
            MotorError::NoError => 0,
            MotorError::ConfigFail => 1,
            MotorError::MotorAlignFail => 2,
            MotorError::HighTemperatureWarning => 4,
            MotorError::OverTemperature => 8,
            MotorError::OverCurrent => 16,
            MotorError::LowBusVoltage => 32,
            MotorError::CommunicationFail => 64,
        }
    }
}

/// Error codes of the homing procedure.
#[derive(Debug, Clone, Copy, PartialEq, Eq, Structural)]
pub enum HomingError {
    NoError,
    AxisSensorReadFail,
    ZeroingFail,
    IndexSearchFail,
}

impl HomingError {
    /// Bit of the error in the homing error byte.
    pub open spec fn code(self) -> u8 {
        match self {
            HomingError::NoError => 0,
            HomingError::AxisSensorReadFail => 1,
            HomingError::ZeroingFail => 2,
            HomingError::IndexSearchFail => 4,
        }
    }

    /// Bit of the error in the homing error byte.
    pub fn to_u8(self) -> (r: u8)
        ensures
            r == self.code(),
    {
        match self {
            HomingError::NoError => 0,
            HomingError::AxisSensorReadFail => 1,
            HomingError::ZeroingFail => 2,
            HomingError::IndexSearchFail => 4,
        }
    }
}

/// Status byte and error bytes of an Orbita board.
#[derive(Debug, Clone, Copy, PartialEq, Eq)]
pub struct OrbitaState {
    pub status: u8,
    pub motor_errors: [u8; N_AXIS],
    pub homing_error: u8,
}

impl OrbitaState {
    /// Unknown status, no errors.
    pub fn new() -> (r: Self)
        ensures
            r.status == BoardStatus::Unknown.code(),
            forall|a: int| 0 <= a < N_AXIS ==> r.motor_errors[a] == 0,
            r.homing_error == 0,
    {
        OrbitaState { status: 0, motor_errors: [0u8; N_AXIS], homing_error: 0 }
    }

    /// Sets the status.
    pub fn set_status(&mut self, status: BoardStatus)
        ensures
            final(self).status == status.code(),
            final(self).motor_errors == old(self).motor_errors,
            final(self).homing_error == old(self).homing_error,
    {
        self.status = status.to_u8();
    }

    /// Records `error` for motor `axis`: its bit is raised in the motor's error byte,
    /// the other bits stay.
    pub fn set_motor_error(&mut self, axis: usize, error: MotorError)
        requires
            axis < N_AXIS,
        ensures
            final(self).motor_errors@ == old(self).motor_errors@.update(
                axis as int,
                old(self).motor_errors[axis as int] | error.code(),
            ),
            final(self).status == old(self).status,
            final(self).homing_error == old(self).homing_error,
    {
        self.motor_errors[axis] = self.motor_errors[axis] | error.to_u8();
    }

    /// Records `error` of the homing procedure: its bit is raised in the homing error
    /// byte, the other bits stay.
    pub fn set_homing_error(&mut self, error: HomingError)
        ensures
            final(self).homing_error == old(self).homing_error | error.code(),
            final(self).status == old(self).status,
            final(self).motor_errors == old(self).motor_errors,
    {
        self.homing_error = self.homing_error | error.to_u8();
    }

    /// Clears the error bytes of all motors.
    pub fn clear_motor_errors(&mut self)
        ensures
            forall|a: int| 0 <= a < N_AXIS ==> final(self).motor_errors[a] == 0,
            final(self).status == old(self).status,
            final(self).homing_error == old(self).homing_error,
    {
        let mut i: usize = 0;
        while i < N_AXIS
            invariant
                i <= N_AXIS,
                forall|a: int| 0 <= a < i ==> self.motor_errors[a] == 0,
                self.status == old(self).status,
                self.homing_error == old(self).homing_error,
            decreases N_AXIS - i,
        {
            self.motor_errors[i] = 0;
            i = i + 1;
        }
    }

    /// Clears the homing error byte.
    pub fn clear_homing_error(&mut self)
        ensures
            final(self).homing_error == 0,
            final(self).status == old(self).status,
            final(self).motor_errors == old(self).motor_errors,
    {
        self.homing_error = 0;
    }

    /// Clears all error bytes.
    pub fn clear_errors(&mut self)
        ensures
            forall|a: int| 0 <= a < N_AXIS ==> final(self).motor_errors[a] == 0,
            final(self).homing_error == 0,
            final(self).status == old(self).status,
    {
        self.clear_motor_errors();
        self.clear_homing_error();
    }

    /// Operational (without warning).
    pub fn is_operational(&self) -> (r: bool)
        ensures
            r == (self.status == BoardStatus::Operational.code()),
    {
        self.status == BoardStatus::Operational.to_u8()
    }

    /// Initialising.
    pub fn is_init(&self) -> (r: bool)
        ensures
            r == (self.status == BoardStatus::Init.code()),
    {
        self.status == BoardStatus::Init.to_u8()
    }

    /// Initialisation failed.
    pub fn is_init_error(&self) -> (r: bool)
        ensures
            r == (self.status == BoardStatus::InitError.code()),
    {
        self.status == BoardStatus::InitError.to_u8()
    }

    /// Runtime error.
    pub fn is_runtime_error(&self) -> (r: bool)
        ensures
            r == (self.status == BoardStatus::RuntimeError.code()),
    {
        self.status == BoardStatus::RuntimeError.to_u8()
    }

    /// Operational with warning.
    pub fn is_operational_with_warning(&self) -> (r: bool)
        ensures
            r == (self.status == BoardStatus::OperationalWithWarning.code()),
    {
        self.status == BoardStatus::OperationalWithWarning.to_u8()
    }

    /// Unknown status.
    pub fn is_unknown(&self) -> (r: bool)
        ensures
            r == (self.status == BoardStatus::Unknown.code()),
    {
        self.status == BoardStatus::Unknown.to_u8()
    }

    /// Some bit of `error` is present in the error byte of motor `axis`.
    pub fn is_motor_error(&self, axis: usize, error: MotorError) -> (r: bool)
        requires
            axis < N_AXIS,
        ensures
            r == (self.motor_errors[axis as int] & error.code() != 0),
    {
        (self.motor_errors[axis] & error.to_u8()) != 0
    }

    /// Some bit of `error` is present in the homing error byte.
    pub fn is_homing_error(&self, error: HomingError) -> (r: bool)
        ensures
            r == (self.homing_error & error.code() != 0),
    {
        (self.homing_error & error.to_u8()) != 0
    }
}

/// A recorded error is reported afterwards, and recording it keeps every error bit
/// that was already there: from a cleared byte, recording `e` and testing `e` answers
/// yes, and testing any error that shares no bit with `e` answers no.
pub proof fn law_recorded_error_reported(v: u8, e: u8, other: u8)
    ensures
        e != 0 ==> (v | e) & e != 0,
        (v | e) & v == v,
        v == 0 && e & other == 0 ==> (v | e) & other == 0,
{
    assert((e != 0 ==> (v | e) & e != 0) && (v | e) & v == v && (v == 0 && e & other == 0 ==> (v
        | e) & other == 0)) by (bit_vector);
}

} // verus!
