use vstd::prelude::*;

use crate::motor_control::foc::MotionMode;

verus! {

/// CiA 402 modes of operation supported by the board.
#[derive(Debug, Clone, Copy, PartialEq, Eq, Structural)]
pub enum CiA402ModeOfOperation {
    NoMode,
    ProfilePositionMode,
    ProfileVelocityMode,
    ProfileTorqueMode,
}

/// The mode with object dictionary value `mode`; unsupported values give no mode.
pub open spec fn mode_of_operation_of(mode: u8) -> CiA402ModeOfOperation {
    match mode {
        1 => CiA402ModeOfOperation::ProfilePositionMode,
        3 => CiA402ModeOfOperation::ProfileVelocityMode,
        4 => CiA402ModeOfOperation::ProfileTorqueMode,
        _ => CiA402ModeOfOperation::NoMode,
    }
}

/// The mode run by a motion mode; motion modes without one give no mode.
pub open spec fn mode_of_motion_mode(mode: MotionMode) -> CiA402ModeOfOperation {
    match mode {
        MotionMode::Position => CiA402ModeOfOperation::ProfilePositionMode,
        MotionMode::Velocity => CiA402ModeOfOperation::ProfileVelocityMode,
        MotionMode::Torque => CiA402ModeOfOperation::ProfileTorqueMode,
        _ => CiA402ModeOfOperation::NoMode,
    }
}

impl CiA402ModeOfOperation {
    /// Object dictionary value of the mode.
    pub open spec fn code(self) -> u8 {
        match self {
            CiA402ModeOfOperation::NoMode => 0,
            CiA402ModeOfOperation::ProfilePositionMode => 1,
            CiA402ModeOfOperation::ProfileVelocityMode => 3,
            CiA402ModeOfOperation::ProfileTorqueMode => 4,
        }
    }

    /// Motion mode of the motor controller that runs the mode.
    pub open spec fn motion_mode(self) -> MotionMode {
        match self {
            CiA402ModeOfOperation::NoMode => MotionMode::Stopped,
            CiA402ModeOfOperation::ProfilePositionMode => MotionMode::Position,
            CiA402ModeOfOperation::ProfileVelocityMode => MotionMode::Velocity,
            CiA402ModeOfOperation::ProfileTorqueMode => MotionMode::Torque,
        }
    }

    /// The mode with value `mode`; unsupported values give no mode.
    pub fn from_u8(mode: u8) -> (r: CiA402ModeOfOperation)
        ensures
            r == mode_of_operation_of(mode),
            (mode == 0 || mode == 1 || mode == 3 || mode == 4) ==> r.code() == mode,
            !(mode == 0 || mode == 1 || mode == 3 || mode == 4) ==> r
                == CiA402ModeOfOperation::NoMode,
    {
        match mode {
            0 => CiA402ModeOfOperation::NoMode,
            1 => CiA402ModeOfOperation::ProfilePositionMode,
            3 => CiA402ModeOfOperation::ProfileVelocityMode,
            4 => CiA402ModeOfOperation::ProfileTorqueMode,
            _ => CiA402ModeOfOperation::NoMode,
        }
    }

    /// Object dictionary value of the mode.
    pub fn to_u8(&self) -> (r: u8)
        ensures
            r == self.code(),
    {
        match self {
            CiA402ModeOfOperation::NoMode => 0,
            CiA402ModeOfOperation::ProfilePositionMode => 1,
            CiA402ModeOfOperation::ProfileVelocityMode => 3,
            CiA402ModeOfOperation::ProfileTorqueMode => 4,
        }
    }

    /// Motion mode of the motor controller that runs the mode.
    pub fn to_tmc4671_mode(&self) -> (r: MotionMode)
        ensures
            r == self.motion_mode(),
    {
        match self {
            CiA402ModeOfOperation::NoMode => MotionMode::Stopped,
            CiA402ModeOfOperation::ProfilePositionMode => MotionMode::Position,
            CiA402ModeOfOperation::ProfileVelocityMode => MotionMode::Velocity,
            CiA402ModeOfOperation::ProfileTorqueMode => MotionMode::Torque,
        }
    }

    /// The mode run by a motion mode; motion modes without one give no mode.
    pub fn from_tmc4671_mode(mode: MotionMode) -> (r: CiA402ModeOfOperation)
        ensures
            r == mode_of_motion_mode(mode),
            (mode == MotionMode::Stopped || mode == MotionMode::Position || mode
                == MotionMode::Velocity || mode == MotionMode::Torque) ==> r.motion_mode()
                == mode,
            !(mode == MotionMode::Stopped || mode == MotionMode::Position || mode
                == MotionMode::Velocity || mode == MotionMode::Torque) ==> r
                == CiA402ModeOfOperation::NoMode,
    {
        match mode {
            MotionMode::Stopped => CiA402ModeOfOperation::NoMode,
            MotionMode::Position => CiA402ModeOfOperation::ProfilePositionMode,
            MotionMode::Velocity => CiA402ModeOfOperation::ProfileVelocityMode,
            MotionMode::Torque => CiA402ModeOfOperation::ProfileTorqueMode,
            _ => CiA402ModeOfOperation::NoMode,
        }
    }
}

/// Values and motion modes identify the mode of operation: converting either way and
/// back gives the mode again.
pub proof fn law_mode_of_operation_roundtrip(m1: CiA402ModeOfOperation, m2: CiA402ModeOfOperation)
    ensures
        m1.code() == m2.code() ==> m1 == m2,
        m1.motion_mode() == m2.motion_mode() ==> m1 == m2,
{
}

} // verus!
