use vstd::prelude::*;

verus! {

/// States of the CiA 402 drive state machine.
#[derive(Debug, Clone, Copy, PartialEq, Eq, Structural)]
pub enum CiA402State {
    /// Initialisation and self-test of the drive not yet completed.
    NotReadyToSwitchOn,
    /// Initialisation passed.
    SwitchOnDisabled,
    /// Initialisation passed and switch off received.
    ReadyToSwitchOn,
    /// Switch on received.
    SwitchedOn,
    /// Switched on and enable operation received.
    OperationEnabled,
    /// Quick stop procedure going to switch on disabled.
    QuickStopActive,
    /// Fault reaction going to the fault state.
    FaultReactionActive,
    /// Fault.
    Fault,
}

impl CiA402State {
    /// The status word bits that report the state.
    pub open spec fn code(self) -> u16 {
        match self {
            CiA402State::NotReadyToSwitchOn => 0b0000_0000,
            CiA402State::SwitchOnDisabled => 0b0100_0000,
            CiA402State::ReadyToSwitchOn => 0b0010_0001,
            CiA402State::SwitchedOn => 0b0010_0011,
            CiA402State::OperationEnabled => 0b0011_0111,
            CiA402State::QuickStopActive => 0b0000_0111,
            CiA402State::FaultReactionActive => 0b0001_1111,
            CiA402State::Fault => 0b0000_1000,
        }
    }

    /// The status word bits that report the state.
    pub fn to_u16(self) -> (r: u16)
        ensures
            r == self.code(),
    {
        match self {
            CiA402State::NotReadyToSwitchOn => 0b0000_0000,
            CiA402State::SwitchOnDisabled => 0b0100_0000,
            CiA402State::ReadyToSwitchOn => 0b0010_0001,
            CiA402State::SwitchedOn => 0b0010_0011,
            CiA402State::OperationEnabled => 0b0011_0111,
            CiA402State::QuickStopActive => 0b0000_0111,
            CiA402State::FaultReactionActive => 0b0001_1111,
            CiA402State::Fault => 0b0000_1000,
        }
    }
}

/// Meaning of each bit of the CiA 402 status word.
#[derive(Debug, Clone, Copy, PartialEq, Eq, Structural)]
pub enum CiA402StatusBit {
    ReadyToSwitchOn,
    SwitchedOn,
    OperationEnabled,
    Fault,
    VoltageEnabled,
    QuickStop,
    SwitchedOnDisabled,
    Warning,
    Reserved8,
    Remote,
    OperatingModeSpecific10,
    InternalLimitActive,
    OperatingModeSpecific12,
    OperatingModeSpecific13,
    Reserved14,
    PositionReferencedToHomePosition,
}

/// The status bit at position `bit`; positions past 15 read as the reserved bit 14.
pub open spec fn status_bit_at(bit: u8) -> CiA402StatusBit {
    match bit {
        0 => CiA402StatusBit::ReadyToSwitchOn,
        1 => CiA402StatusBit::SwitchedOn,
        2 => CiA402StatusBit::OperationEnabled,
        3 => CiA402StatusBit::Fault,
        4 => CiA402StatusBit::VoltageEnabled,
        5 => CiA402StatusBit::QuickStop,
        6 => CiA402StatusBit::SwitchedOnDisabled,
        7 => CiA402StatusBit::Warning,
        8 => CiA402StatusBit::Reserved8,
        9 => CiA402StatusBit::Remote,
        10 => CiA402StatusBit::OperatingModeSpecific10,
        11 => CiA402StatusBit::InternalLimitActive,
        12 => CiA402StatusBit::OperatingModeSpecific12,
        13 => CiA402StatusBit::OperatingModeSpecific13,
        14 => CiA402StatusBit::Reserved14,
        15 => CiA402StatusBit::PositionReferencedToHomePosition,
        _ => CiA402StatusBit::Reserved14,
    }
}

impl CiA402StatusBit {
    /// The status bit at position `bit`.
    pub fn from_bit(bit: u8) -> (r: CiA402StatusBit)
        ensures
            r == status_bit_at(bit),
    {
        match bit {
            0 => CiA402StatusBit::ReadyToSwitchOn,
            1 => CiA402StatusBit::SwitchedOn,
            2 => CiA402StatusBit::OperationEnabled,
            3 => CiA402StatusBit::Fault,
            4 => CiA402StatusBit::VoltageEnabled,
            5 => CiA402StatusBit::QuickStop,
            6 => CiA402StatusBit::SwitchedOnDisabled,
            7 => CiA402StatusBit::Warning,
            8 => CiA402StatusBit::Reserved8,
            9 => CiA402StatusBit::Remote,
            10 => CiA402StatusBit::OperatingModeSpecific10,
            11 => CiA402StatusBit::InternalLimitActive,
            12 => CiA402StatusBit::OperatingModeSpecific12,
            13 => CiA402StatusBit::OperatingModeSpecific13,
            14 => CiA402StatusBit::Reserved14,
            15 => CiA402StatusBit::PositionReferencedToHomePosition,
            _ => CiA402StatusBit::Reserved14,
        }
    }
}

/// Commands a master sends through the CiA 402 control word.
#[derive(Debug, Clone, Copy, PartialEq, Eq, Structural)]
pub enum CiA402Command {
    Shutdown,
    SwitchOn,
    DisableVoltage,
    EnableOperation,
    DisableOperation,
    QuickStop,
    FaultReset,
    Unknown,
}

/// Bit `n` of the word `v` is set.
pub open spec fn word_bit(v: u16, n: u16) -> bool {
    (v >> n) & 1 == 1
}

/// Decoding of a control word:
/// fault reset `1xxxxxxx`, shutdown `0xxxx110`, quick stop `0xxxx01x`,
/// enable operation `0xxx1111`, disable operation `0xxx0111`.
pub open spec fn command_of_word(cmd: u16) -> CiA402Command {
    if word_bit(cmd, 7) {
        CiA402Command::FaultReset
    } else if !word_bit(cmd, 0) && word_bit(cmd, 1) && word_bit(cmd, 2) {
        CiA402Command::Shutdown
    } else if word_bit(cmd, 1) && !word_bit(cmd, 2) {
        CiA402Command::QuickStop
    } else if word_bit(cmd, 0) && word_bit(cmd, 1) && word_bit(cmd, 2) && word_bit(cmd, 3) {
        CiA402Command::EnableOperation
    } else if word_bit(cmd, 0) && word_bit(cmd, 1) && word_bit(cmd, 2) && !word_bit(cmd, 3) {
        CiA402Command::DisableOperation
    } else {
        CiA402Command::Unknown
    }
}

/// Bit `n` of `value`.
pub fn bit(value: u16, n: u16) -> (r: bool)
    requires
        n < 16,
    ensures
        r == word_bit(value, n),
{
    (value >> n) & 1 == 1
}

impl CiA402Command {
    /// Decodes a control word into a command.
    pub fn from_u16(cmd: u16) -> (r: CiA402Command)
        ensures
            r == command_of_word(cmd),
    {
        if bit(cmd, 7) {
            CiA402Command::FaultReset
        } else if !bit(cmd, 0) && bit(cmd, 1) && bit(cmd, 2) {
            CiA402Command::Shutdown
        } else if bit(cmd, 1) && !bit(cmd, 2) {
            CiA402Command::QuickStop
        } else if bit(cmd, 0) && bit(cmd, 1) && bit(cmd, 2) && bit(cmd, 3) {
            CiA402Command::EnableOperation
        } else if bit(cmd, 0) && bit(cmd, 1) && bit(cmd, 2) && !bit(cmd, 3) {
            CiA402Command::DisableOperation
        } else {
            CiA402Command::Unknown
        }
    }
}

/// The transition a command causes. Quick stop active, fault reaction active and not
/// ready to switch on are left only by the firmware itself, never by a command.
pub open spec fn next_state(state: CiA402State, command: CiA402Command) -> CiA402State {
    match state {
        CiA402State::Fault => {
            if command == CiA402Command::FaultReset {
                CiA402State::NotReadyToSwitchOn
            } else {
                state
            }
        },
        CiA402State::SwitchOnDisabled => {
            if command == CiA402Command::Shutdown {
                CiA402State::ReadyToSwitchOn
            } else if command == CiA402Command::SwitchOn || command
                == CiA402Command::DisableOperation {
                CiA402State::SwitchedOn
            } else {
                state
            }
        },
        CiA402State::ReadyToSwitchOn => {
            if command == CiA402Command::SwitchOn || command == CiA402Command::DisableOperation {
                CiA402State::SwitchedOn
            } else if command == CiA402Command::EnableOperation {
                CiA402State::OperationEnabled
            } else {
                state
            }
        },
        CiA402State::SwitchedOn => {
            if command == CiA402Command::EnableOperation {
                CiA402State::OperationEnabled
            } else if command == CiA402Command::QuickStop {
                CiA402State::SwitchOnDisabled
            } else {
                state
            }
        },
        CiA402State::OperationEnabled => {
            if command == CiA402Command::DisableOperation {
                CiA402State::SwitchedOn
            } else if command == CiA402Command::Shutdown {
                CiA402State::SwitchOnDisabled
            } else if command == CiA402Command::QuickStop {
                CiA402State::QuickStopActive
            } else {
                state
            }
        },
        _ => state,
    }
}

/// The state a fault leads to: straight to fault while initialising, through the
/// fault reaction otherwise.
pub open spec fn fault_state_from(state: CiA402State) -> CiA402State {
    if state == CiA402State::NotReadyToSwitchOn {
        CiA402State::Fault
    } else {
        CiA402State::FaultReactionActive
    }
}

/// The status bits reported for a state: entry `i` is bit `i` when it is set.
pub open spec fn status_bits_of(state: CiA402State, i: int) -> Option<CiA402StatusBit> {
    if word_bit(state.code(), i as u16) {
        Some(status_bit_at(i as u8))
    } else {
        None
    }
}

/// CiA 402 state machine with a warning flag.
#[derive(Debug, Clone, Copy, PartialEq, Eq, Structural)]
pub struct CiA402StateMachine {
    pub state: CiA402State,
    pub warning_active: bool,
}

impl CiA402StateMachine {
    /// A machine that has not finished initialising, without warning.
    pub fn new() -> (r: Self)
        ensures
            r.state == CiA402State::NotReadyToSwitchOn,
            !r.warning_active,
    {
        CiA402StateMachine { state: CiA402State::NotReadyToSwitchOn, warning_active: false }
    }

    /// Same as `new`.
    pub fn default() -> (r: Self)
        ensures
            r.state == CiA402State::NotReadyToSwitchOn,
            !r.warning_active,
    {
        CiA402StateMachine { state: CiA402State::NotReadyToSwitchOn, warning_active: false }
    }

    /// Applies the transition that `command` causes in the current state.
    pub fn update_state_with_command(&mut self, command: CiA402Command)
        ensures
            final(self).state == next_state(old(self).state, command),
            final(self).warning_active == old(self).warning_active,
    {
        match self.state {
            CiA402State::Fault => {
                if command == CiA402Command::FaultReset {
                    self.state = CiA402State::NotReadyToSwitchOn;
                }
            },
            CiA402State::SwitchOnDisabled => {
                if command == CiA402Command::Shutdown {
                    self.state = CiA402State::ReadyToSwitchOn;
                } else if command == CiA402Command::SwitchOn || command
                    == CiA402Command::DisableOperation {
                    self.state = CiA402State::SwitchedOn;
                }
            },
            CiA402State::ReadyToSwitchOn => {
                if command == CiA402Command::SwitchOn || command
                    == CiA402Command::DisableOperation {
                    self.state = CiA402State::SwitchedOn;
                } else if command == CiA402Command::EnableOperation {
                    self.state = CiA402State::OperationEnabled;
                }
            },
            CiA402State::SwitchedOn => {
                if command == CiA402Command::EnableOperation {
                    self.state = CiA402State::OperationEnabled;
                } else if command == CiA402Command::QuickStop {
                    self.state = CiA402State::SwitchOnDisabled;
                }
            },
            CiA402State::OperationEnabled => {
                if command == CiA402Command::DisableOperation {
                    self.state = CiA402State::SwitchedOn;
                } else if command == CiA402Command::Shutdown {
                    self.state = CiA402State::SwitchOnDisabled;
                } else if command == CiA402Command::QuickStop {
                    self.state = CiA402State::QuickStopActive;
                }
            },
            _ => {},
        }
    }

    /// Raises the warning flag.
    pub fn set_warning_state(&mut self)
        ensures
            final(self).warning_active,
            final(self).state == old(self).state,
    {
        self.warning_active = true;
    }

    /// Lowers the warning flag.
    pub fn clear_warning_state(&mut self)
        ensures
            !final(self).warning_active,
            final(self).state == old(self).state,
    {
        self.warning_active = false;
    }

    /// Enters the fault state, through the fault reaction unless still initialising.
    pub fn set_fault_state(&mut self)
        ensures
            final(self).state == fault_state_from(old(self).state),
            final(self).warning_active == old(self).warning_active,
    {
        if self.state == CiA402State::NotReadyToSwitchOn {
            self.state = CiA402State::Fault;
        } else {
            self.state = CiA402State::FaultReactionActive;
        }
    }

    /// Forces the state.
    pub fn set_state(&mut self, state: CiA402State)
        ensures
            final(self).state == state,
            final(self).warning_active == old(self).warning_active,
    {
        self.state = state;
    }

    /// The meaning of each of the low eight status word bits that the state sets.
    pub fn get_status_bits(&self) -> (r: [Option<CiA402StatusBit>; 8])
        ensures
            forall|i: int| 0 <= i < 8 ==> #[trigger] r[i] == status_bits_of(self.state, i),
    {
        let mut status_bits: [Option<CiA402StatusBit>; 8] = [None; 8];
        let status_word = self.state.to_u16();
        let mut i: u16 = 0;
        while i < 8
            invariant
                i <= 8,
                status_word == self.state.code(),
                forall|j: int| 0 <= j < i ==> #[trigger] status_bits[j] == status_bits_of(self.state, j),
            decreases 8 - i,
        {
            if bit(status_word, i) {
                status_bits[i as usize] = Some(CiA402StatusBit::from_bit(i as u8));
            } else {
                status_bits[i as usize] = None;
            }
            i = i + 1;
        }
        status_bits
    }
}

// ---------------------------------------------------------------------------
// Laws of the state machine
// ---------------------------------------------------------------------------

/// A fault is left only by a fault reset, which leads back to initialisation.
pub proof fn law_fault_left_only_by_reset(command: CiA402Command)
    ensures
        next_state(CiA402State::Fault, command) != CiA402State::Fault <==> command
            == CiA402Command::FaultReset,
        command == CiA402Command::FaultReset ==> next_state(CiA402State::Fault, command)
            == CiA402State::NotReadyToSwitchOn,
{
}

/// Initialisation, quick stop and fault reaction are not changed by any command.
pub proof fn law_transient_states_ignore_commands(state: CiA402State, command: CiA402Command)
    requires
        state == CiA402State::NotReadyToSwitchOn || state == CiA402State::QuickStopActive
            || state == CiA402State::FaultReactionActive,
    ensures
        next_state(state, command) == state,
{
}

/// Operation is enabled only by an enable-operation command given in the ready to
/// switch on or switched on state.
pub proof fn law_operation_enabled_only_by_enable(state: CiA402State, command: CiA402Command)
    requires
        state != CiA402State::OperationEnabled,
        next_state(state, command) == CiA402State::OperationEnabled,
    ensures
        command == CiA402Command::EnableOperation,
        state == CiA402State::ReadyToSwitchOn || state == CiA402State::SwitchedOn,
{
}

/// No command leads into a fault or a fault reaction: only `set_fault_state` does.
pub proof fn law_commands_never_fault(state: CiA402State, command: CiA402Command)
    requires
        state != CiA402State::Fault,
        state != CiA402State::FaultReactionActive,
    ensures
        next_state(state, command) != CiA402State::Fault,
        next_state(state, command) != CiA402State::FaultReactionActive,
{
}

/// Any control word with bit 7 set is a fault reset; the canonical words of the other
/// commands decode to them.
pub proof fn law_control_word_decoding(cmd: u16)
    ensures
        word_bit(cmd, 7) ==> command_of_word(cmd) == CiA402Command::FaultReset,
        command_of_word(0b0110) == CiA402Command::Shutdown,
        command_of_word(0b0111) == CiA402Command::DisableOperation,
        command_of_word(0b1111) == CiA402Command::EnableOperation,
        command_of_word(0b0010) == CiA402Command::QuickStop,
        command_of_word(0x80) == CiA402Command::FaultReset,
{
    assert({
        &&& ((0b0110u16 >> 7u16) & 1) == 0 && ((0b0110u16 >> 0u16) & 1) == 0
        &&& ((0b0110u16 >> 1u16) & 1) == 1 && ((0b0110u16 >> 2u16) & 1) == 1
        &&& ((0b0111u16 >> 7u16) & 1) == 0 && ((0b0111u16 >> 0u16) & 1) == 1
        &&& ((0b0111u16 >> 1u16) & 1) == 1 && ((0b0111u16 >> 2u16) & 1) == 1
        &&& ((0b0111u16 >> 3u16) & 1) == 0
        &&& ((0b1111u16 >> 7u16) & 1) == 0 && ((0b1111u16 >> 0u16) & 1) == 1
        &&& ((0b1111u16 >> 1u16) & 1) == 1 && ((0b1111u16 >> 2u16) & 1) == 1
        &&& ((0b1111u16 >> 3u16) & 1) == 1
        &&& ((0b0010u16 >> 7u16) & 1) == 0 && ((0b0010u16 >> 0u16) & 1) == 0
        &&& ((0b0010u16 >> 1u16) & 1) == 1 && ((0b0010u16 >> 2u16) & 1) == 0
        &&& ((0x80u16 >> 7u16) & 1) == 1
    }) by (bit_vector);
}

/// The control words of the commands, by their bit patterns: fault reset `1xxxxxxx`,
/// shutdown `0xxxx110`, quick stop `0xxxx01x`, enable operation `0xxx1111`, and switch
/// on, which is also disable operation, `0xxx0111`.
pub proof fn law_control_word_patterns(cmd: u16)
    ensures
        cmd & 0x80 != 0 ==> command_of_word(cmd) == CiA402Command::FaultReset,
        cmd & 0x87 == 0x06 ==> command_of_word(cmd) == CiA402Command::Shutdown,
        cmd & 0x86 == 0x02 ==> command_of_word(cmd) == CiA402Command::QuickStop,
        cmd & 0x8F == 0x0F ==> command_of_word(cmd) == CiA402Command::EnableOperation,
        cmd & 0x8F == 0x07 ==> command_of_word(cmd) == CiA402Command::DisableOperation,
{
    assert({
        &&& (cmd & 0x80 != 0) == ((cmd >> 7u16) & 1 == 1)
        &&& cmd & 0x87 == 0x06 ==> (cmd >> 7u16) & 1 != 1 && (cmd >> 0u16) & 1 != 1 && (cmd
            >> 1u16) & 1 == 1 && (cmd >> 2u16) & 1 == 1
        &&& cmd & 0x86 == 0x02 ==> (cmd >> 7u16) & 1 != 1 && (cmd >> 1u16) & 1 == 1 && (cmd
            >> 2u16) & 1 != 1
        &&& cmd & 0x8F == 0x0F ==> (cmd >> 7u16) & 1 != 1 && (cmd >> 0u16) & 1 == 1 && (cmd
            >> 1u16) & 1 == 1 && (cmd >> 2u16) & 1 == 1 && (cmd >> 3u16) & 1 == 1
        &&& cmd & 0x8F == 0x07 ==> (cmd >> 7u16) & 1 != 1 && (cmd >> 0u16) & 1 == 1 && (cmd
            >> 1u16) & 1 == 1 && (cmd >> 2u16) & 1 == 1 && (cmd >> 3u16) & 1 != 1
    }) by (bit_vector);
}

/// What each control word does to the drive: a fault is left only by a fault reset;
/// from switch on disabled, shutdown readies the drive and switch on switches it on;
/// once ready, switch on switches it on and enable operation enables it; once switched
/// on, enable operation enables it and quick stop disables it; in operation, disable
/// operation (the switch on word) switches it back on, shutdown disables it and quick
/// stop starts the quick stop. The switch on word therefore switches a ready drive on.
pub proof fn law_control_word_transitions(cmd: u16)
    ensures
        cmd & 0x80 != 0 ==> next_state(CiA402State::Fault, command_of_word(cmd))
            == CiA402State::NotReadyToSwitchOn,
        cmd & 0x80 == 0 ==> next_state(CiA402State::Fault, command_of_word(cmd))
            == CiA402State::Fault,
        cmd & 0x87 == 0x06 ==> next_state(CiA402State::SwitchOnDisabled, command_of_word(cmd))
            == CiA402State::ReadyToSwitchOn,
        cmd & 0x8F == 0x07 ==> next_state(CiA402State::SwitchOnDisabled, command_of_word(cmd))
            == CiA402State::SwitchedOn,
        cmd & 0x8F == 0x07 ==> next_state(CiA402State::ReadyToSwitchOn, command_of_word(cmd))
            == CiA402State::SwitchedOn,
        cmd & 0x8F == 0x0F ==> next_state(CiA402State::ReadyToSwitchOn, command_of_word(cmd))
            == CiA402State::OperationEnabled,
        cmd & 0x8F == 0x0F ==> next_state(CiA402State::SwitchedOn, command_of_word(cmd))
            == CiA402State::OperationEnabled,
        cmd & 0x86 == 0x02 ==> next_state(CiA402State::SwitchedOn, command_of_word(cmd))
            == CiA402State::SwitchOnDisabled,
        cmd & 0x8F == 0x07 ==> next_state(CiA402State::OperationEnabled, command_of_word(cmd))
            == CiA402State::SwitchedOn,
        cmd & 0x87 == 0x06 ==> next_state(CiA402State::OperationEnabled, command_of_word(cmd))
            == CiA402State::SwitchOnDisabled,
        cmd & 0x86 == 0x02 ==> next_state(CiA402State::OperationEnabled, command_of_word(cmd))
            == CiA402State::QuickStopActive,
        next_state(CiA402State::ReadyToSwitchOn, command_of_word(0x0007))
            == CiA402State::SwitchedOn,
{
    law_control_word_patterns(cmd);
    law_control_word_patterns(0x0007);
    assert(0x0007u16 & 0x8F == 0x07) by (bit_vector);
    assert(cmd & 0x80 == 0 ==> (cmd >> 7u16) & 1 != 1) by (bit_vector);
}

/// Outside operation, the disable operation command acts as the switch on command
/// whose control word it shares.
pub proof fn law_disable_operation_is_switch_on(s: CiA402State)
    requires
        s != CiA402State::OperationEnabled,
    ensures
        next_state(s, CiA402Command::DisableOperation) == next_state(s, CiA402Command::SwitchOn),
{
}

} // verus!
