use vstd::prelude::*;

use crate::config::N_AXIS;
use crate::state_machine::poulpe_state::{flag_checked, flag_cleared, flag_set};

verus! {

/// General status of the board. It starts unknown, then initialises; an error during
/// initialisation gives the init error, otherwise it becomes operational, possibly with
/// a warning, until a runtime error.
#[derive(Debug, Clone, Copy, PartialEq, Eq, Structural)]
pub enum BoardStatus {
    Unknown,
    Init,
    InitError,
    Operational,
    OperationalWithWarning,
    RuntimeError,
}

impl BoardStatus {
    /// Status byte of the status.
    pub open spec fn code(self) -> u8 {
        match self {
            BoardStatus::Unknown => 0,
            BoardStatus::Init => 1,
            BoardStatus::InitError => 2,
            BoardStatus::Operational => 4,
            BoardStatus::OperationalWithWarning => 8,
            BoardStatus::RuntimeError => 16,
        }
    }

    /// Status byte of the status.
    pub fn to_u8(self) -> (r: u8)
        ensures
            r == self.code(),
    {
        match self {
            BoardStatus::Unknown => 0,
            BoardStatus::Init => 1,
            BoardStatus::InitError => 2,
            BoardStatus::Operational => 4,
            BoardStatus::OperationalWithWarning => 8,
            BoardStatus::RuntimeError => 16,
        }
    }
}

/// The status a status byte stands for; unknown bytes read as `Unknown`.
pub open spec fn status_of_code(s: u8) -> BoardStatus {
    match s {
        1 => BoardStatus::Init,
        2 => BoardStatus::InitError,
        4 => BoardStatus::Operational,
        8 => BoardStatus::OperationalWithWarning,
        16 => BoardStatus::RuntimeError,
        _ => BoardStatus::Unknown,
    }
}

/// Status after an error: init error while initialising, runtime error otherwise.
pub open spec fn status_after_error(s: u8) -> u8 {
    if s == 1 {
        2
    } else {
        16
    }
}

/// Status after a warning: operational becomes operational with warning.
pub open spec fn status_after_warning(s: u8) -> u8 {
    if s == 4 {
        8
    } else {
        s
    }
}

/// Status after the warning is gone: operational with warning becomes operational.
pub open spec fn status_after_warning_cleared(s: u8) -> u8 {
    if s == 8 {
        4
    } else {
        s
    }
}

/// Error flags of a motor.
#[derive(Debug, Clone, Copy, PartialEq, Eq, Structural)]
pub enum MotorErrorFlag {
    NoError,
    ConfigFail,
    MotorAlignFail,
    HighTemperatureWarning,
    OverTemperatureMotor,
    OverTemperatureBoard,
    OverCurrent,
    LowBusVoltage,
    CommunicationFail,
}

impl MotorErrorFlag {
    /// Bit of the flag in a motor's flag byte.
    pub open spec fn code(self) -> u8 {
        match self {
            MotorErrorFlag::NoError => 0,
            MotorErrorFlag::ConfigFail => 1,
            MotorErrorFlag::MotorAlignFail => 2,
            MotorErrorFlag::HighTemperatureWarning => 4,
            MotorErrorFlag::OverTemperatureMotor => 8,
            MotorErrorFlag::OverTemperatureBoard => 16,
            MotorErrorFlag::OverCurrent => 32,
            MotorErrorFlag::LowBusVoltage => 64,
            MotorErrorFlag::CommunicationFail => 128,
        }
    }

    /// Bit of the flag in a motor's flag byte.
    pub fn to_u8(self) -> (r: u8)
        ensures
            r == self.code(),
    {
        match self {
            MotorErrorFlag::NoError => 0,
            MotorErrorFlag::ConfigFail => 1,
            MotorErrorFlag::MotorAlignFail => 2,
            MotorErrorFlag::HighTemperatureWarning => 4,
            MotorErrorFlag::OverTemperatureMotor => 8,
            MotorErrorFlag::OverTemperatureBoard => 16,
            MotorErrorFlag::OverCurrent => 32,
            MotorErrorFlag::LowBusVoltage => 64,
            MotorErrorFlag::CommunicationFail => 128,
        }
    }
}

/// The motor flag whose bit is `m`, if `m` is the bit of one.
pub open spec fn motor_flag_of_mask(m: u8) -> Option<MotorErrorFlag> {
    match m {
        1 => Some(MotorErrorFlag::ConfigFail),
        2 => Some(MotorErrorFlag::MotorAlignFail),
        4 => Some(MotorErrorFlag::HighTemperatureWarning),
        8 => Some(MotorErrorFlag::OverTemperatureMotor),
        16 => Some(MotorErrorFlag::OverTemperatureBoard),
        32 => Some(MotorErrorFlag::OverCurrent),
        64 => Some(MotorErrorFlag::LowBusVoltage),
        128 => Some(MotorErrorFlag::CommunicationFail),
        _ => None,
    }
}

fn motor_flag_of(m: u8) -> (r: Option<MotorErrorFlag>)
    ensures
        r == motor_flag_of_mask(m),
{
    match m {
        1 => Some(MotorErrorFlag::ConfigFail),
        2 => Some(MotorErrorFlag::MotorAlignFail),
        4 => Some(MotorErrorFlag::HighTemperatureWarning),
        8 => Some(MotorErrorFlag::OverTemperatureMotor),
        16 => Some(MotorErrorFlag::OverTemperatureBoard),
        32 => Some(MotorErrorFlag::OverCurrent),
        64 => Some(MotorErrorFlag::LowBusVoltage),
        128 => Some(MotorErrorFlag::CommunicationFail),
        _ => None,
    }
}

/// Error flags of the homing procedure.
#[derive(Debug, Clone, Copy, PartialEq, Eq, Structural)]
pub enum HomingErrorFlag {
    NoError,
    AxisSensorReadFail,
    MotorMovementCheckFail,
    AxisSensorAlignFail,
    ZeroingFail,
    IndexSearchFail,
}

impl HomingErrorFlag {
    /// Bit of the flag in the homing flag byte.
    pub open spec fn code(self) -> u8 {
        match self {
            HomingErrorFlag::NoError => 0,
            HomingErrorFlag::AxisSensorReadFail => 1,
            HomingErrorFlag::MotorMovementCheckFail => 2,
            HomingErrorFlag::AxisSensorAlignFail => 4,
            HomingErrorFlag::ZeroingFail => 8,
            HomingErrorFlag::IndexSearchFail => 16,
        }
    }

    /// Bit of the flag in the homing flag byte.
    pub fn to_u8(self) -> (r: u8)
        ensures
            r == self.code(),
    {
        match self {
            HomingErrorFlag::NoError => 0,
            HomingErrorFlag::AxisSensorReadFail => 1,
            HomingErrorFlag::MotorMovementCheckFail => 2,
            HomingErrorFlag::AxisSensorAlignFail => 4,
            HomingErrorFlag::ZeroingFail => 8,
            HomingErrorFlag::IndexSearchFail => 16,
        }
    }
}

/// The homing flag whose bit is `m`, if `m` is the bit of one.
pub open spec fn homing_flag_of_mask(m: u8) -> Option<HomingErrorFlag> {
    match m {
        1 => Some(HomingErrorFlag::AxisSensorReadFail),
        2 => Some(HomingErrorFlag::MotorMovementCheckFail),
        4 => Some(HomingErrorFlag::AxisSensorAlignFail),
        8 => Some(HomingErrorFlag::ZeroingFail),
        16 => Some(HomingErrorFlag::IndexSearchFail),
        _ => None,
    }
}

fn homing_flag_of(m: u8) -> (r: Option<HomingErrorFlag>)
    ensures
        r == homing_flag_of_mask(m),
{
    match m {
        1 => Some(HomingErrorFlag::AxisSensorReadFail),
        2 => Some(HomingErrorFlag::MotorMovementCheckFail),
        4 => Some(HomingErrorFlag::AxisSensorAlignFail),
        8 => Some(HomingErrorFlag::ZeroingFail),
        16 => Some(HomingErrorFlag::IndexSearchFail),
        _ => None,
    }
}

/// The 32-bit bitmap of homing and motor errors: homing flags in bits 0-7, then the
/// flags of motor `i` in bits `8 * (i + 1)` to `8 * (i + 1) + 7`.
pub open spec fn board_error_word(homing: u8, motors: Seq<u8>) -> u32 {
    (homing + 0x100 * motors[0] + 0x1_0000 * motors[1] + 0x100_0000 * motors[2]) as u32
}

/// Status byte and error flags of the board.
#[derive(Debug, Clone, Copy, PartialEq, Eq)]
pub struct PoulpeState {
    pub status: u8,
    pub motor_error_flags: [u8; N_AXIS],
    pub homing_error_flags: u8,
}

impl PoulpeState {
    /// Unknown status, no errors.
    pub fn new() -> (r: Self)
        ensures
            r.status == BoardStatus::Unknown.code(),
            forall|a: int| 0 <= a < N_AXIS ==> r.motor_error_flags[a] == 0,
            r.homing_error_flags == 0,
    {
        PoulpeState { status: 0, motor_error_flags: [0u8; N_AXIS], homing_error_flags: 0 }
    }

    /// Sets the status.
    pub fn set_status(&mut self, status: BoardStatus)
        ensures
            final(self).status == status.code(),
            final(self).motor_error_flags == old(self).motor_error_flags,
            final(self).homing_error_flags == old(self).homing_error_flags,
    {
        self.status = status.to_u8();
    }

    /// Sets the status byte.
    pub fn set_status_u8(&mut self, status: u8)
        ensures
            final(self).status == status,
            final(self).motor_error_flags == old(self).motor_error_flags,
            final(self).homing_error_flags == old(self).homing_error_flags,
    {
        self.status = status;
    }

    /// Raises `error` in the flags of motor `axis`.
    pub fn set_motor_error_flag(&mut self, axis: usize, error: MotorErrorFlag)
        requires
            axis < N_AXIS,
        ensures
            final(self).motor_error_flags@ == old(self).motor_error_flags@.update(
                axis as int,
                flag_set(old(self).motor_error_flags[axis as int], error.code()),
            ),
            final(self).homing_error_flags == old(self).homing_error_flags,
            final(self).status == old(self).status,
    {
        self.motor_error_flags[axis] = self.motor_error_flags[axis] | error.to_u8();
    }

    /// Raises `error` in the homing flags.
    pub fn set_homing_error_flag(&mut self, error: HomingErrorFlag)
        ensures
            final(self).homing_error_flags == flag_set(old(self).homing_error_flags, error.code()),
            final(self).motor_error_flags == old(self).motor_error_flags,
            final(self).status == old(self).status,
    {
        self.homing_error_flags = self.homing_error_flags | error.to_u8();
    }

    /// Lowers all motor flags.
    pub fn clear_motor_error_flags(&mut self)
        ensures
            forall|a: int| 0 <= a < N_AXIS ==> final(self).motor_error_flags[a] == 0,
            final(self).homing_error_flags == old(self).homing_error_flags,
            final(self).status == old(self).status,
    {
        let mut i: usize = 0;
        while i < N_AXIS
            invariant
                i <= N_AXIS,
                forall|a: int| 0 <= a < i ==> self.motor_error_flags[a] == 0,
                self.homing_error_flags == old(self).homing_error_flags,
                self.status == old(self).status,
            decreases N_AXIS - i,
        {
            self.motor_error_flags[i] = 0;
            i = i + 1;
        }
    }

    /// Lowers all homing flags.
    pub fn clear_homing_error_flags(&mut self)
        ensures
            final(self).homing_error_flags == 0,
            final(self).motor_error_flags == old(self).motor_error_flags,
            final(self).status == old(self).status,
    {
        self.homing_error_flags = 0;
    }

    /// Lowers all flags.
    pub fn clear_errors(&mut self)
        ensures
            forall|a: int| 0 <= a < N_AXIS ==> final(self).motor_error_flags[a] == 0,
            final(self).homing_error_flags == 0,
            final(self).status == old(self).status,
    {
        self.clear_motor_error_flags();
        self.clear_homing_error_flags();
    }

    /// Lowers `error` in the flags of motor `axis`.
    pub fn clear_motor_error_flag(&mut self, axis: usize, error: MotorErrorFlag)
        requires
            axis < N_AXIS,
        ensures
            final(self).motor_error_flags@ == old(self).motor_error_flags@.update(
                axis as int,
                flag_cleared(old(self).motor_error_flags[axis as int], error.code()),
            ),
            final(self).homing_error_flags == old(self).homing_error_flags,
            final(self).status == old(self).status,
    {
        self.motor_error_flags[axis] = self.motor_error_flags[axis] & !error.to_u8();
    }

    /// Lowers `error` in the homing flags.
    pub fn clear_homing_error_flag(&mut self, error: HomingErrorFlag)
        ensures
            final(self).homing_error_flags == flag_cleared(
                old(self).homing_error_flags,
                error.code(),
            ),
            final(self).motor_error_flags == old(self).motor_error_flags,
            final(self).status == old(self).status,
    {
        self.homing_error_flags = self.homing_error_flags & !error.to_u8();
    }

    /// Initialising.
    pub fn set_init_state(&mut self)
        ensures
            final(self).status == BoardStatus::Init.code(),
            final(self).motor_error_flags == old(self).motor_error_flags,
            final(self).homing_error_flags == old(self).homing_error_flags,
    {
        self.status = BoardStatus::Init.to_u8();
    }

    /// Operational.
    pub fn set_operational_state(&mut self)
        ensures
            final(self).status == BoardStatus::Operational.code(),
            final(self).motor_error_flags == old(self).motor_error_flags,
            final(self).homing_error_flags == old(self).homing_error_flags,
    {
        self.status = BoardStatus::Operational.to_u8();
    }

    /// Init error while initialising, runtime error otherwise.
    pub fn set_error_state(&mut self)
        ensures
            final(self).status == status_after_error(old(self).status),
            final(self).motor_error_flags == old(self).motor_error_flags,
            final(self).homing_error_flags == old(self).homing_error_flags,
    {
        if self.status == BoardStatus::Init.to_u8() {
            self.status = BoardStatus::InitError.to_u8();
        } else {
            self.status = BoardStatus::RuntimeError.to_u8();
        }
    }

    /// Operational becomes operational with warning; other statuses stay.
    pub fn set_warning_state(&mut self)
        ensures
            final(self).status == status_after_warning(old(self).status),
            final(self).motor_error_flags == old(self).motor_error_flags,
            final(self).homing_error_flags == old(self).homing_error_flags,
    {
        if self.status == BoardStatus::Operational.to_u8() {
            self.status = BoardStatus::OperationalWithWarning.to_u8();
        }
    }

    /// Operational with warning becomes operational; other statuses stay.
    pub fn clear_warning_state(&mut self)
        ensures
            final(self).status == status_after_warning_cleared(old(self).status),
            final(self).motor_error_flags == old(self).motor_error_flags,
            final(self).homing_error_flags == old(self).homing_error_flags,
    {
        if self.status == BoardStatus::OperationalWithWarning.to_u8() {
            self.status = BoardStatus::Operational.to_u8();
        }
    }

    /// Operational, with or without warning.
    pub fn is_operational(&self) -> (r: bool)
        ensures
            r == (self.status == 4 || self.status == 8),
    {
        self.status == BoardStatus::Operational.to_u8() || self.status
            == BoardStatus::OperationalWithWarning.to_u8()
    }

    /// Initialising.
    pub fn is_init(&self) -> (r: bool)
        ensures
            r == (self.status == BoardStatus::Init.code()),
    {
        self.status == BoardStatus::Init.to_u8()
    }

    /// Initialisation failed.
    pub fn is_init_error(&self) -> (r: bool)
        ensures
            r == (self.status == BoardStatus::InitError.code()),
    {
        self.status == BoardStatus::InitError.to_u8()
    }

    /// Runtime error.
    pub fn is_runtime_error(&self) -> (r: bool)
        ensures
            r == (self.status == BoardStatus::RuntimeError.code()),
    {
        self.status == BoardStatus::RuntimeError.to_u8()
    }

    /// Init error or runtime error.
    pub fn is_error(&self) -> (r: bool)
        ensures
            r == (self.status == 2 || self.status == 16),
    {
        self.is_init_error() || self.is_runtime_error()
    }

    /// Operational with warning.
    pub fn is_warning(&self) -> (r: bool)
        ensures
            r == (self.status == BoardStatus::OperationalWithWarning.code()),
    {
        self.status == BoardStatus::OperationalWithWarning.to_u8()
    }

    /// Unknown status.
    pub fn is_unknown_state(&self) -> (r: bool)
        ensures
            r == (self.status == BoardStatus::Unknown.code()),
    {
        self.status == BoardStatus::Unknown.to_u8()
    }

    /// Some flag of motor `axis` is raised.
    pub fn is_motor_error(&self, axis: usize) -> (r: bool)
        requires
            axis < N_AXIS,
        ensures
            r == (self.motor_error_flags[axis as int] != 0),
    {
        self.motor_error_flags[axis] != 0
    }

    /// Some homing flag is raised.
    pub fn is_homing_error(&self) -> (r: bool)
        ensures
            r == (self.homing_error_flags != 0),
    {
        self.homing_error_flags != 0
    }

    /// `error` is raised for motor `axis`.
    pub fn check_motor_error_flag(&self, axis: usize, error: MotorErrorFlag) -> (r: bool)
        requires
            axis < N_AXIS,
        ensures
            r == flag_checked(self.motor_error_flags[axis as int], error.code()),
    {
        let e = error.to_u8();
        (self.motor_error_flags[axis] & e) == e
    }

    /// `error` is raised in the homing flags.
    pub fn check_homing_error_flag(&self, error: HomingErrorFlag) -> (r: bool)
        ensures
            r == flag_checked(self.homing_error_flags, error.code()),
    {
        let e = error.to_u8();
        (self.homing_error_flags & e) == e
    }

    /// All flags in one word (see `board_error_word`).
    pub fn error_flags_to_u32(&self) -> (r: u32)
        ensures
            r == board_error_word(self.homing_error_flags, self.motor_error_flags@),
    {
        let h = self.homing_error_flags as u32;
        let m0 = self.motor_error_flags[0] as u32;
        let m1 = self.motor_error_flags[1] as u32;
        let m2 = self.motor_error_flags[2] as u32;
        h + 0x100 * m0 + 0x1_0000 * m1 + 0x100_0000 * m2
    }

    /// The status byte.
    pub fn status_to_u8(&self) -> (r: u8)
        ensures
            r == self.status,
    {
        self.status
    }

    /// `[status, homing flags, motor 0 flags, motor 1 flags, motor 2 flags]`.
    pub fn to_byte_array(&self) -> (r: [u8; 5])
        ensures
            r@ == seq![
                self.status,
                self.homing_error_flags,
                self.motor_error_flags[0],
                self.motor_error_flags[1],
                self.motor_error_flags[2],
            ],
    {
        let mut state = [0u8; 5];
        state[0] = self.status;
        state[1] = self.homing_error_flags;
        let mut i: usize = 0;
        while i < N_AXIS
            invariant
                i <= N_AXIS,
                state[0] == self.status,
                state[1] == self.homing_error_flags,
                forall|a: int| 0 <= a < i ==> state[a + 2] == self.motor_error_flags[a],
            decreases N_AXIS - i,
        {
            state[i + 2] = self.motor_error_flags[i];
            i = i + 1;
        }
        assert(state@ =~= seq![
            self.status,
            self.homing_error_flags,
            self.motor_error_flags[0],
            self.motor_error_flags[1],
            self.motor_error_flags[2],
        ]);
        state
    }

    /// The status the status byte stands for.
    pub fn get_status(&self) -> (r: BoardStatus)
        ensures
            r == status_of_code(self.status),
    {
        match self.status {
            0 => BoardStatus::Unknown,
            1 => BoardStatus::Init,
            2 => BoardStatus::InitError,
            4 => BoardStatus::Operational,
            8 => BoardStatus::OperationalWithWarning,
            16 => BoardStatus::RuntimeError,
            _ => BoardStatus::Unknown,
        }
    }

    /// The raised homing flags, entry `i` for bit `i`; without any flag, the first entry
    /// is the empty flag and the others are empty.
    pub fn get_homing_error_flags(&self) -> (r: [Option<HomingErrorFlag>; 8])
        ensures
            self.homing_error_flags == 0 ==> r[0] == Some(HomingErrorFlag::NoError) && forall|
                i: int,
            |
                1 <= i < 8 ==> r[i] is None,
            self.homing_error_flags != 0 ==> forall|i: int|
                0 <= i < 8 ==> #[trigger] r[i] == homing_flag_of_mask(
                    self.homing_error_flags & (1u8 << (i as u8)),
                ),
    {
        let mut errors: [Option<HomingErrorFlag>; 8] = [None; 8];
        if self.homing_error_flags == 0 {
            errors[0] = Some(HomingErrorFlag::NoError);
            return errors;
        }
        let mut i: u8 = 0;
        while i < 8
            invariant
                i <= 8,
                forall|j: int| 0 <= j < i ==> #[trigger] errors[j] == homing_flag_of_mask(
                    self.homing_error_flags & (1u8 << (j as u8)),
                ),
            decreases 8 - i,
        {
            errors[i as usize] = homing_flag_of(self.homing_error_flags & (1u8 << i));
            i = i + 1;
        }
        errors
    }

    /// The raised flags of motor `axis`, entry `i` for bit `i`; without any flag, the
    /// first entry is the empty flag and the others are empty.
    pub fn get_motor_errors_flags(&self, axis: usize) -> (r: [Option<MotorErrorFlag>; 8])
        requires
            axis < N_AXIS,
        ensures
            self.motor_error_flags[axis as int] == 0 ==> r[0] == Some(MotorErrorFlag::NoError)
                && forall|i: int| 1 <= i < 8 ==> r[i] is None,
            self.motor_error_flags[axis as int] != 0 ==> forall|i: int|
                0 <= i < 8 ==> #[trigger] r[i] == motor_flag_of_mask(
                    self.motor_error_flags[axis as int] & (1u8 << (i as u8)),
                ),
    {
        let mut errors: [Option<MotorErrorFlag>; 8] = [None; 8];
        let flags = self.motor_error_flags[axis];
        if flags == 0 {
            errors[0] = Some(MotorErrorFlag::NoError);
            return errors;
        }
        let mut i: u8 = 0;
        while i < 8
            invariant
                i <= 8,
                flags == self.motor_error_flags[axis as int],
                forall|j: int| 0 <= j < i ==> #[trigger] errors[j] == motor_flag_of_mask(
                    flags & (1u8 << (j as u8)),
                ),
            decreases 8 - i,
        {
            errors[i as usize] = motor_flag_of(flags & (1u8 << i));
            i = i + 1;
        }
        errors
    }
}

/// Decoding the status byte of a status gives the status back.
pub proof fn law_status_code_roundtrip(s: BoardStatus)
    ensures
        status_of_code(s.code()) == s,
{
}

/// Once in an error state, an error, a warning or the end of a warning keeps the board
/// in an error state.
pub proof fn law_error_states_kept(s: u8)
    requires
        s == BoardStatus::InitError.code() || s == BoardStatus::RuntimeError.code(),
    ensures
        status_after_error(s) == BoardStatus::RuntimeError.code(),
        status_after_warning(s) == s,
        status_after_warning_cleared(s) == s,
{
}

/// A warning raised and then cleared leaves an operational board operational.
pub proof fn law_warning_raised_then_cleared(s: u8)
    requires
        s == BoardStatus::Operational.code(),
    ensures
        status_after_warning(s) == BoardStatus::OperationalWithWarning.code(),
        status_after_warning_cleared(status_after_warning(s)) == s,
{
}

/// Each flag has its own bit: distinct flags have distinct, single-bit codes, and the
/// bit of a flag names it back.
pub proof fn law_flag_bits(m: MotorErrorFlag, h: HomingErrorFlag)
    ensures
        m != MotorErrorFlag::NoError ==> motor_flag_of_mask(m.code()) == Some(m),
        h != HomingErrorFlag::NoError ==> homing_flag_of_mask(h.code()) == Some(h),
{
}

} // verus!
