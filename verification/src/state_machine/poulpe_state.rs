use vstd::prelude::*;

use crate::config::N_AXIS;
use crate::dynamixel::conversion::le_u32_value;
use crate::state_machine::cia402_state_machine::{
    command_of_word, next_state, CiA402Command, CiA402State, CiA402StateMachine,
};

verus! {

// ---------------------------------------------------------------------------
// Error flag bytes
// ---------------------------------------------------------------------------

/// The flag byte `v` with the bits of `m` raised.
pub open spec fn flag_set(v: u8, m: u8) -> u8 {
    v | m
}

/// The flag byte `v` with the bits of `m` lowered.
pub open spec fn flag_cleared(v: u8, m: u8) -> u8 {
    v & !m
}

/// All bits of `m` are raised in `v`.
pub open spec fn flag_checked(v: u8, m: u8) -> bool {
    v & m == m
}

/// A raised flag is seen raised.
pub proof fn law_flag_set_then_checked(v: u8, m: u8)
    ensures
        flag_checked(flag_set(v, m), m),
{
    lemma_flag_bits(v, m, 0);
}

/// A lowered flag is no longer seen raised (the empty flag is always seen raised).
pub proof fn law_flag_cleared_then_unchecked(v: u8, m: u8)
    requires
        m != 0,
    ensures
        !flag_checked(flag_cleared(v, m), m),
{
    lemma_flag_bits(v, m, 0);
}

/// Raising a flag that was down and lowering it again gives the flag byte back.
pub proof fn law_flag_set_clear_restores(v: u8, m: u8)
    requires
        v & m == 0,
    ensures
        flag_cleared(flag_set(v, m), m) == v,
{
    lemma_flag_bits(v, m, 0);
}

/// Raising or lowering a flag leaves the other flags as they were.
pub proof fn law_flag_other_bits_kept(v: u8, m: u8, o: u8)
    requires
        m & o == 0,
    ensures
        flag_set(v, m) & o == v & o,
        flag_cleared(v, m) & o == v & o,
{
    lemma_flag_bits(v, m, o);
}

proof fn lemma_flag_bits(v: u8, m: u8, o: u8)
    by (bit_vector)
    ensures
        (v | m) & m == m,
        m != 0 ==> (v & !m) & m != m,
        v & m == 0 ==> (v | m) & !m == v,
        m & o == 0 ==> (v | m) & o == v & o,
        m & o == 0 ==> (v & !m) & o == v & o,
{
}

/// Error flags of a motor.
#[derive(Debug, Clone, Copy, PartialEq, Eq, Structural)]
pub enum MotorErrorFlag {
    NoError,
    ConfigFail,
    MotorAlignFail,
    HighTemperatureWarning,
    OverTemperatureMotor,
    OverTemperatureBoard,
    OverCurrent,
    LowBusVoltage,
    DriverFault,
}

impl MotorErrorFlag {
    /// Bit of the flag in a motor's flag byte.
    pub open spec fn code(self) -> u8 {
        match self {
            MotorErrorFlag::NoError => 0,
            MotorErrorFlag::ConfigFail => 1,
            MotorErrorFlag::MotorAlignFail => 2,
            MotorErrorFlag::HighTemperatureWarning => 4,
            MotorErrorFlag::OverTemperatureMotor => 8,
            MotorErrorFlag::OverTemperatureBoard => 16,
            MotorErrorFlag::OverCurrent => 32,
            MotorErrorFlag::LowBusVoltage => 64,
            MotorErrorFlag::DriverFault => 128,
        }
    }

    /// Bit of the flag in a motor's flag byte.
    pub fn to_u8(self) -> (r: u8)
        ensures
            r == self.code(),
    {
        match self {
            MotorErrorFlag::NoError => 0,
            MotorErrorFlag::ConfigFail => 1,
            MotorErrorFlag::MotorAlignFail => 2,
            MotorErrorFlag::HighTemperatureWarning => 4,
            MotorErrorFlag::OverTemperatureMotor => 8,
            MotorErrorFlag::OverTemperatureBoard => 16,
            MotorErrorFlag::OverCurrent => 32,
            MotorErrorFlag::LowBusVoltage => 64,
            MotorErrorFlag::DriverFault => 128,
        }
    }
}

/// The motor flag whose bit is `m`, if `m` is the bit of one.
pub open spec fn motor_flag_of_mask(m: u8) -> Option<MotorErrorFlag> {
    match m {
        1 => Some(MotorErrorFlag::ConfigFail),
        2 => Some(MotorErrorFlag::MotorAlignFail),
        4 => Some(MotorErrorFlag::HighTemperatureWarning),
        8 => Some(MotorErrorFlag::OverTemperatureMotor),
        16 => Some(MotorErrorFlag::OverTemperatureBoard),
        32 => Some(MotorErrorFlag::OverCurrent),
        64 => Some(MotorErrorFlag::LowBusVoltage),
        128 => Some(MotorErrorFlag::DriverFault),
        _ => None,
    }
}

fn motor_flag_of(m: u8) -> (r: Option<MotorErrorFlag>)
    ensures
        r == motor_flag_of_mask(m),
{
    match m {
        1 => Some(MotorErrorFlag::ConfigFail),
        2 => Some(MotorErrorFlag::MotorAlignFail),
        4 => Some(MotorErrorFlag::HighTemperatureWarning),
        8 => Some(MotorErrorFlag::OverTemperatureMotor),
        16 => Some(MotorErrorFlag::OverTemperatureBoard),
        32 => Some(MotorErrorFlag::OverCurrent),
        64 => Some(MotorErrorFlag::LowBusVoltage),
        128 => Some(MotorErrorFlag::DriverFault),
        _ => None,
    }
}

/// Error flags of the homing procedure.
#[derive(Debug, Clone, Copy, PartialEq, Eq, Structural)]
pub enum HomingErrorFlag {
    NoError,
    AxisSensorReadFail,
    MotorMovementCheckFail,
    AxisSensorAlignFail,
    ZeroingFail,
    IndexSearchFail,
    CommunicationFail,
}

impl HomingErrorFlag {
    /// Bit of the flag in the homing flag byte.
    pub open spec fn code(self) -> u8 {
        match self {
            HomingErrorFlag::NoError => 0,
            HomingErrorFlag::AxisSensorReadFail => 1,
            HomingErrorFlag::MotorMovementCheckFail => 2,
            HomingErrorFlag::AxisSensorAlignFail => 4,
            HomingErrorFlag::ZeroingFail => 8,
            HomingErrorFlag::IndexSearchFail => 16,
            HomingErrorFlag::CommunicationFail => 32,
        }
    }

    /// Bit of the flag in the homing flag byte.
    pub fn to_u8(self) -> (r: u8)
        ensures
            r == self.code(),
    {
        match self {
            HomingErrorFlag::NoError => 0,
            HomingErrorFlag::AxisSensorReadFail => 1,
            HomingErrorFlag::MotorMovementCheckFail => 2,
            HomingErrorFlag::AxisSensorAlignFail => 4,
            HomingErrorFlag::ZeroingFail => 8,
            HomingErrorFlag::IndexSearchFail => 16,
            HomingErrorFlag::CommunicationFail => 32,
        }
    }
}

/// The homing flag whose bit is `m`, if `m` is the bit of one.
pub open spec fn homing_flag_of_mask(m: u8) -> Option<HomingErrorFlag> {
    match m {
        1 => Some(HomingErrorFlag::AxisSensorReadFail),
        2 => Some(HomingErrorFlag::MotorMovementCheckFail),
        4 => Some(HomingErrorFlag::AxisSensorAlignFail),
        8 => Some(HomingErrorFlag::ZeroingFail),
        16 => Some(HomingErrorFlag::IndexSearchFail),
        32 => Some(HomingErrorFlag::CommunicationFail),
        _ => None,
    }
}

fn homing_flag_of(m: u8) -> (r: Option<HomingErrorFlag>)
    ensures
        r == homing_flag_of_mask(m),
{
    match m {
        1 => Some(HomingErrorFlag::AxisSensorReadFail),
        2 => Some(HomingErrorFlag::MotorMovementCheckFail),
        4 => Some(HomingErrorFlag::AxisSensorAlignFail),
        8 => Some(HomingErrorFlag::ZeroingFail),
        16 => Some(HomingErrorFlag::IndexSearchFail),
        32 => Some(HomingErrorFlag::CommunicationFail),
        _ => None,
    }
}

/// The 32-bit bitmap of homing and motor errors: homing flags in bits 0-7, then the
/// flags of motor `i` in bits `8 * (i + 1)` to `8 * (i + 1) + 7`.
pub open spec fn error_word(homing: u8, motors: Seq<u8>) -> u32 {
    (homing + 0x100 * motors[0] + 0x1_0000 * motors[1] + 0x100_0000 * motors[2]) as u32
}

/// Status word low byte: the state bits, with bit 7 raised while a warning is active.
pub open spec fn statusword_low(state: CiA402State, warning: bool) -> u8 {
    if warning {
        (state.code() as u8) | 0x80
    } else {
        state.code() as u8
    }
}

/// State of the board: the CiA 402 machine and the error flags.
#[derive(Debug, Clone, Copy, PartialEq, Eq)]
pub struct PoulpeState {
    pub state_machine: CiA402StateMachine,
    pub motor_error_flags: [u8; N_AXIS],
    pub homing_error_flags: u8,
}

impl PoulpeState {
    /// Initialising, without warning and without errors.
    pub fn default() -> (r: Self)
        ensures
            r.state_machine.state == CiA402State::NotReadyToSwitchOn,
            !r.state_machine.warning_active,
            forall|a: int| 0 <= a < N_AXIS ==> r.motor_error_flags[a] == 0,
            r.homing_error_flags == 0,
    {
        Self {
            state_machine: CiA402StateMachine::default(),
            motor_error_flags: [0u8; N_AXIS],
            homing_error_flags: 0,
        }
    }

    /// Initialising, without warning and without errors.
    pub fn new() -> (r: Self)
        ensures
            r.state_machine.state == CiA402State::NotReadyToSwitchOn,
            !r.state_machine.warning_active,
            forall|a: int| 0 <= a < N_AXIS ==> r.motor_error_flags[a] == 0,
            r.homing_error_flags == 0,
    {
        PoulpeState {
            state_machine: CiA402StateMachine::new(),
            motor_error_flags: [0u8; N_AXIS],
            homing_error_flags: 0,
        }
    }

    /// Raises `error` in the flags of motor `axis`.
    pub fn set_motor_error_flag(&mut self, axis: usize, error: MotorErrorFlag)
        requires
            axis < N_AXIS,
        ensures
            final(self).motor_error_flags@ == old(self).motor_error_flags@.update(
                axis as int,
                flag_set(old(self).motor_error_flags[axis as int], error.code()),
            ),
            final(self).homing_error_flags == old(self).homing_error_flags,
            final(self).state_machine == old(self).state_machine,
    {
        self.motor_error_flags[axis] = self.motor_error_flags[axis] | error.to_u8();
    }

    /// Raises `error` in the homing flags.
    pub fn set_homing_error_flag(&mut self, error: HomingErrorFlag)
        ensures
            final(self).homing_error_flags == flag_set(old(self).homing_error_flags, error.code()),
            final(self).motor_error_flags == old(self).motor_error_flags,
            final(self).state_machine == old(self).state_machine,
    {
        self.homing_error_flags = self.homing_error_flags | error.to_u8();
    }

    /// Lowers all motor flags.
    pub fn clear_motor_error_flags(&mut self)
        ensures
            forall|a: int| 0 <= a < N_AXIS ==> final(self).motor_error_flags[a] == 0,
            final(self).homing_error_flags == old(self).homing_error_flags,
            final(self).state_machine == old(self).state_machine,
    {
        let mut i: usize = 0;
        while i < N_AXIS
            invariant
                i <= N_AXIS,
                forall|a: int| 0 <= a < i ==> self.motor_error_flags[a] == 0,
                self.homing_error_flags == old(self).homing_error_flags,
                self.state_machine == old(self).state_machine,
            decreases N_AXIS - i,
        {
            self.motor_error_flags[i] = 0;
            i = i + 1;
        }
    }

    /// Lowers all homing flags.
    pub fn clear_homing_error_flags(&mut self)
        ensures
            final(self).homing_error_flags == 0,
            final(self).motor_error_flags == old(self).motor_error_flags,
            final(self).state_machine == old(self).state_machine,
    {
        self.homing_error_flags = 0;
    }

    /// Lowers all motor and homing flags.
    pub fn clear_errors(&mut self)
        ensures
            forall|a: int| 0 <= a < N_AXIS ==> final(self).motor_error_flags[a] == 0,
            final(self).homing_error_flags == 0,
            final(self).state_machine == old(self).state_machine,
    {
        self.clear_motor_error_flags();
        self.clear_homing_error_flags();
    }

    /// Lowers `error` in the flags of motor `axis`.
    pub fn clear_motor_error_flag(&mut self, axis: usize, error: MotorErrorFlag)
        requires
            axis < N_AXIS,
        ensures
            final(self).motor_error_flags@ == old(self).motor_error_flags@.update(
                axis as int,
                flag_cleared(old(self).motor_error_flags[axis as int], error.code()),
            ),
            final(self).homing_error_flags == old(self).homing_error_flags,
            final(self).state_machine == old(self).state_machine,
    {
        self.motor_error_flags[axis] = self.motor_error_flags[axis] & !error.to_u8();
    }

    /// Lowers `error` in the homing flags.
    pub fn clear_homing_error_flag(&mut self, error: HomingErrorFlag)
        ensures
            final(self).homing_error_flags == flag_cleared(
                old(self).homing_error_flags,
                error.code(),
            ),
            final(self).motor_error_flags == old(self).motor_error_flags,
            final(self).state_machine == old(self).state_machine,
    {
        self.homing_error_flags = self.homing_error_flags & !error.to_u8();
    }

    /// Back to initialisation.
    pub fn set_init_state(&mut self)
        ensures
            final(self).state_machine.state == CiA402State::NotReadyToSwitchOn,
            final(self).state_machine.warning_active == old(self).state_machine.warning_active,
            final(self).motor_error_flags == old(self).motor_error_flags,
            final(self).homing_error_flags == old(self).homing_error_flags,
    {
        self.state_machine.set_state(CiA402State::NotReadyToSwitchOn);
    }

    /// Initialisation succeeded: switch on disabled.
    pub fn notify_init_success(&mut self)
        ensures
            final(self).state_machine.state == CiA402State::SwitchOnDisabled,
            final(self).state_machine.warning_active == old(self).state_machine.warning_active,
            final(self).motor_error_flags == old(self).motor_error_flags,
            final(self).homing_error_flags == old(self).homing_error_flags,
    {
        self.state_machine.set_state(CiA402State::SwitchOnDisabled);
    }

    /// Enters the fault: directly while initialising or already faulty, through the
    /// fault reaction otherwise.
    pub fn set_fault_state(&mut self)
        ensures
            final(self).state_machine.state == (if old(self).state_machine.state
                == CiA402State::NotReadyToSwitchOn || old(self).state_machine.state
                == CiA402State::Fault {
                CiA402State::Fault
            } else {
                CiA402State::FaultReactionActive
            }),
            final(self).state_machine.warning_active == old(self).state_machine.warning_active,
            final(self).motor_error_flags == old(self).motor_error_flags,
            final(self).homing_error_flags == old(self).homing_error_flags,
    {
        if self.state_machine.state == CiA402State::NotReadyToSwitchOn || self.state_machine.state
            == CiA402State::Fault {
            self.state_machine.set_state(CiA402State::Fault);
        } else {
            self.state_machine.set_state(CiA402State::FaultReactionActive);
        }
    }

    /// Raises the warning.
    pub fn set_warning_state(&mut self)
        ensures
            final(self).state_machine.warning_active,
            final(self).state_machine.state == old(self).state_machine.state,
            final(self).motor_error_flags == old(self).motor_error_flags,
            final(self).homing_error_flags == old(self).homing_error_flags,
    {
        self.state_machine.set_warning_state();
    }

    /// Lowers the warning.
    pub fn clear_warning_state(&mut self)
        ensures
            !final(self).state_machine.warning_active,
            final(self).state_machine.state == old(self).state_machine.state,
            final(self).motor_error_flags == old(self).motor_error_flags,
            final(self).homing_error_flags == old(self).homing_error_flags,
    {
        self.state_machine.clear_warning_state();
    }

    /// Initialised but operation not enabled.
    pub fn is_preoperation_state(&self) -> (r: bool)
        ensures
            r == (self.state_machine.state == CiA402State::SwitchOnDisabled
                || self.state_machine.state == CiA402State::ReadyToSwitchOn
                || self.state_machine.state == CiA402State::SwitchedOn),
    {
        self.state_machine.state == CiA402State::SwitchOnDisabled || self.state_machine.state
            == CiA402State::ReadyToSwitchOn || self.state_machine.state == CiA402State::SwitchedOn
    }

    /// Operation enabled.
    pub fn is_operation_enabled(&self) -> (r: bool)
        ensures
            r == (self.state_machine.state == CiA402State::OperationEnabled),
    {
        self.state_machine.state == CiA402State::OperationEnabled
    }

    /// Still initialising.
    pub fn is_init(&self) -> (r: bool)
        ensures
            r == (self.state_machine.state == CiA402State::NotReadyToSwitchOn),
    {
        self.state_machine.state == CiA402State::NotReadyToSwitchOn
    }

    /// In the fault state.
    pub fn is_fault(&self) -> (r: bool)
        ensures
            r == (self.state_machine.state == CiA402State::Fault),
    {
        self.state_machine.state == CiA402State::Fault
    }

    /// Reacting to a fault.
    pub fn is_fault_reaction_state(&self) -> (r: bool)
        ensures
            r == (self.state_machine.state == CiA402State::FaultReactionActive),
    {
        self.state_machine.state == CiA402State::FaultReactionActive
    }

    /// The fault reaction is over: fault.
    pub fn notify_fault_reaction_done(&mut self)
        ensures
            final(self).state_machine.state == CiA402State::Fault,
            final(self).state_machine.warning_active == old(self).state_machine.warning_active,
            final(self).motor_error_flags == old(self).motor_error_flags,
            final(self).homing_error_flags == old(self).homing_error_flags,
    {
        self.state_machine.set_state(CiA402State::Fault);
    }

    /// A warning is active.
    pub fn is_warning(&self) -> (r: bool)
        ensures
            r == self.state_machine.warning_active,
    {
        self.state_machine.warning_active
    }

    /// Some flag of motor `axis` is raised.
    pub fn is_motor_error(&self, axis: usize) -> (r: bool)
        requires
            axis < N_AXIS,
        ensures
            r == (self.motor_error_flags[axis as int] != 0),
    {
        self.motor_error_flags[axis] != 0
    }

    /// Some homing flag is raised.
    pub fn is_homing_error(&self) -> (r: bool)
        ensures
            r == (self.homing_error_flags != 0),
    {
        self.homing_error_flags != 0
    }

    /// `error` is raised for motor `axis`.
    pub fn check_motor_error_flag(&self, axis: usize, error: MotorErrorFlag) -> (r: bool)
        requires
            axis < N_AXIS,
        ensures
            r == flag_checked(self.motor_error_flags[axis as int], error.code()),
    {
        let e = error.to_u8();
        (self.motor_error_flags[axis] & e) == e
    }

    /// `error` is raised in the homing flags.
    pub fn check_homing_error_flag(&self, error: HomingErrorFlag) -> (r: bool)
        ensures
            r == flag_checked(self.homing_error_flags, error.code()),
    {
        let e = error.to_u8();
        (self.homing_error_flags & e) == e
    }

    /// All flags in one word (see `error_word`).
    pub fn error_flags_to_u32(&self) -> (r: u32)
        ensures
            r == error_word(self.homing_error_flags, self.motor_error_flags@),
    {
        let h = self.homing_error_flags as u32;
        let m0 = self.motor_error_flags[0] as u32;
        let m1 = self.motor_error_flags[1] as u32;
        let m2 = self.motor_error_flags[2] as u32;
        h + 0x100 * m0 + 0x1_0000 * m1 + 0x100_0000 * m2
    }

    /// `[homing flags, motor 0 flags, motor 1 flags, motor 2 flags]`.
    pub fn error_flags_to_u8(&self) -> (r: [u8; 4])
        ensures
            r@ == seq![
                self.homing_error_flags,
                self.motor_error_flags[0],
                self.motor_error_flags[1],
                self.motor_error_flags[2],
            ],
    {
        let mut error_code = [0u8; 4];
        error_code[0] = self.homing_error_flags;
        let mut i: usize = 0;
        while i < N_AXIS
            invariant
                i <= N_AXIS,
                error_code[0] == self.homing_error_flags,
                forall|a: int| 0 <= a < i ==> error_code[a + 1] == self.motor_error_flags[a],
            decreases N_AXIS - i,
        {
            error_code[i + 1] = self.motor_error_flags[i];
            i = i + 1;
        }
        assert(error_code@ =~= seq![
            self.homing_error_flags,
            self.motor_error_flags[0],
            self.motor_error_flags[1],
            self.motor_error_flags[2],
        ]);
        error_code
    }

    /// CiA 402 status word, low byte first.
    pub fn status_to_statusword(&self) -> (r: [u8; 2])
        ensures
            r@ == seq![statusword_low(self.state_machine.state, self.state_machine.warning_active), 0u8],
    {
        let s = self.state_machine.state.to_u16() as u8;
        let r = if self.state_machine.warning_active {
            [s | 0x80, 0]
        } else {
            [s, 0]
        };
        assert(r@ =~= seq![statusword_low(self.state_machine.state, self.state_machine.warning_active), 0u8]);
        r
    }

    /// `[0, state, homing flags, motor 0 flags, motor 1 flags, motor 2 flags]`.
    pub fn to_byte_array(&self) -> (r: [u8; 6])
        ensures
            r@ == seq![
                0u8,
                self.state_machine.state.code() as u8,
                self.homing_error_flags,
                self.motor_error_flags[0],
                self.motor_error_flags[1],
                self.motor_error_flags[2],
            ],
    {
        let mut state = [0u8; 6];
        state[0] = 0;
        state[1] = self.state_machine.state.to_u16() as u8;
        state[2] = self.homing_error_flags;
        let mut i: usize = 0;
        while i < N_AXIS
            invariant
                i <= N_AXIS,
                state[0] == 0,
                state[1] == self.state_machine.state.code() as u8,
                state[2] == self.homing_error_flags,
                forall|a: int| 0 <= a < i ==> state[a + 3] == self.motor_error_flags[a],
            decreases N_AXIS - i,
        {
            state[i + 3] = self.motor_error_flags[i];
            i = i + 1;
        }
        assert(state@ =~= seq![
            0u8,
            self.state_machine.state.code() as u8,
            self.homing_error_flags,
            self.motor_error_flags[0],
            self.motor_error_flags[1],
            self.motor_error_flags[2],
        ]);
        state
    }

    /// Current CiA 402 state.
    pub fn get_state(&self) -> (r: CiA402State)
        ensures
            r == self.state_machine.state,
    {
        self.state_machine.state
    }

    /// The raised homing flags, entry `i` for bit `i`; without any flag, the first entry
    /// is the empty flag and the others are empty.
    pub fn get_homing_error_flags(&self) -> (r: [Option<HomingErrorFlag>; 8])
        ensures
            self.homing_error_flags == 0 ==> r[0] == Some(HomingErrorFlag::NoError) && forall|i: int|
                1 <= i < 8 ==> r[i] is None,
            self.homing_error_flags != 0 ==> forall|i: int|
                0 <= i < 8 ==> #[trigger] r[i] == homing_flag_of_mask(
                    self.homing_error_flags & (1u8 << (i as u8)),
                ),
    {
        let mut errors: [Option<HomingErrorFlag>; 8] = [None; 8];
        if self.homing_error_flags == 0 {
            errors[0] = Some(HomingErrorFlag::NoError);
            return errors;
        }
        let mut i: u8 = 0;
        while i < 8
            invariant
                i <= 8,
                forall|j: int| 0 <= j < i ==> #[trigger] errors[j] == homing_flag_of_mask(
                    self.homing_error_flags & (1u8 << (j as u8)),
                ),
            decreases 8 - i,
        {
            errors[i as usize] = homing_flag_of(self.homing_error_flags & (1u8 << i));
            i = i + 1;
        }
        errors
    }

    /// The raised flags of motor `axis`, entry `i` for bit `i`; without any flag, the
    /// first entry is the empty flag and the others are empty.
    pub fn get_motor_errors_flags(&self, axis: usize) -> (r: [Option<MotorErrorFlag>; 8])
        requires
            axis < N_AXIS,
        ensures
            self.motor_error_flags[axis as int] == 0 ==> r[0] == Some(MotorErrorFlag::NoError)
                && forall|i: int| 1 <= i < 8 ==> r[i] is None,
            self.motor_error_flags[axis as int] != 0 ==> forall|i: int|
                0 <= i < 8 ==> #[trigger] r[i] == motor_flag_of_mask(
                    self.motor_error_flags[axis as int] & (1u8 << (i as u8)),
                ),
    {
        let mut errors: [Option<MotorErrorFlag>; 8] = [None; 8];
        let flags = self.motor_error_flags[axis];
        if flags == 0 {
            errors[0] = Some(MotorErrorFlag::NoError);
            return errors;
        }
        let mut i: u8 = 0;
        while i < 8
            invariant
                i <= 8,
                flags == self.motor_error_flags[axis as int],
                forall|j: int| 0 <= j < i ==> #[trigger] errors[j] == motor_flag_of_mask(
                    flags & (1u8 << (j as u8)),
                ),
            decreases 8 - i,
        {
            errors[i as usize] = motor_flag_of(flags & (1u8 << i));
            i = i + 1;
        }
        errors
    }

    /// Applies the command encoded in the control word `cmd` to the state machine.
    pub fn process_command(&mut self, cmd: u16)
        ensures
            final(self).state_machine.state == next_state(
                old(self).state_machine.state,
                command_of_word(cmd),
            ),
            final(self).state_machine.warning_active == old(self).state_machine.warning_active,
            final(self).motor_error_flags == old(self).motor_error_flags,
            final(self).homing_error_flags == old(self).homing_error_flags,
    {
        self.state_machine.update_state_with_command(CiA402Command::from_u16(cmd));
    }
}

/// The error word keeps the homing flags and the flags of each motor in their own byte,
/// so each can be read back, and its bytes, least significant first, are the error
/// byte array.
pub proof fn law_error_word_layout(homing: u8, m0: u8, m1: u8, m2: u8)
    ensures
        error_word(homing, seq![m0, m1, m2]) % 0x100 == homing,
        (error_word(homing, seq![m0, m1, m2]) / 0x100) % 0x100 == m0,
        (error_word(homing, seq![m0, m1, m2]) / 0x1_0000) % 0x100 == m1,
        error_word(homing, seq![m0, m1, m2]) / 0x100_0000 == m2,
        error_word(homing, seq![m0, m1, m2]) == le_u32_value(seq![homing, m0, m1, m2], 0),
{
    let s = seq![m0, m1, m2];
    assert(s[0] == m0 && s[1] == m1 && s[2] == m2);
    let t = seq![homing, m0, m1, m2];
    assert(t[0] == homing && t[1] == m0 && t[2] == m1 && t[3] == m2);
}

/// The warning shows in bit 7 of the status word and nowhere else: the state bits are
/// always readable below it.
pub proof fn law_statusword_warning_bit(state: CiA402State, warning: bool)
    ensures
        (statusword_low(state, warning) & 0x80 != 0) == warning,
        statusword_low(state, warning) & 0x7F == state.code() as u8,
{
    let c = state.code() as u8;
    assert(c < 0x80);
    assert(c < 0x80 ==> (c | 0x80) & 0x80 != 0 && (c | 0x80) & 0x7F == c && c & 0x80 == 0 && c
        & 0x7F == c) by (bit_vector);
}

} // verus!
