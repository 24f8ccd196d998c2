use vstd::prelude::*;

use super::task::{statusword_with_watchdog, watchdog_of_controlword};

verus! {

/// Process RAM areas of the LAN9252 in the single-area layout.
#[derive(Debug, Clone, Copy, PartialEq, Eq, Structural)]
pub enum Lan9252Memory {
    /// Process data received from the master.
    OrbitaIn,
    /// Acknowledgement of the received data.
    OrbitaInAck,
    /// Board state sent to the master.
    OrbitaStatus,
    /// Process data sent to the master.
    OrbitaOut,
}

impl Lan9252Memory {
    /// Start address of the area.
    pub open spec fn spec_address(self) -> u16 {
        match self {
            Lan9252Memory::OrbitaIn => 0x1000,
            Lan9252Memory::OrbitaInAck => 0x1180,
            Lan9252Memory::OrbitaStatus => 0x1500,
            Lan9252Memory::OrbitaOut => 0x1800,
        }
    }

    /// Start address of the area.
    pub fn address(self) -> (r: u16)
        ensures
            r == self.spec_address(),
    {
        match self {
            Lan9252Memory::OrbitaIn => 0x1000,
            Lan9252Memory::OrbitaInAck => 0x1180,
            Lan9252Memory::OrbitaStatus => 0x1500,
            Lan9252Memory::OrbitaOut => 0x1800,
        }
    }
}

/// Reads the watchdog counter from bits 11-15 of the control word.
pub fn parse_watchdog_counter(controlword: u16) -> (r: u8)
    ensures
        r == watchdog_of_controlword(controlword),
        r < 32,
{
    super::task::parse_watchdog_counter(controlword)
}

/// Copies the watchdog counter into the status word.
pub fn write_watchdog_counter(statusword: [u8; 2], counter: u8) -> (r: [u8; 2])
    ensures
        r@ == statusword_with_watchdog(statusword@, counter),
{
    super::task::write_watchdog_counter(statusword, counter)
}

} // verus!
