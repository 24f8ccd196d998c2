use vstd::prelude::*;

verus! {

/// Why an instruction packet was rejected.
#[derive(Debug, Clone, Copy, PartialEq, Eq, Structural)]
pub enum ParsingError {
    /// The packet is addressed to another id: (our id, its id).
    IgnorePacket(u8, u8),
    InvalidChecksum,
    InvalidPacket,
    UnkownInstruction(u8),
}

} // verus!
