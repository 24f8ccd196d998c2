use vstd::prelude::*;

verus! {

/// Registers of the LTC4332 SPI extender.
#[allow(non_camel_case_types)]
#[derive(Debug, Clone, Copy, PartialEq, Eq, Structural)]
pub enum LTC4332Register {
    CONFIG,
    STATUS,
    EVENT,
    INT,
    FAULT,
    WORD_LENGTH,
    SCRATCH,
}

impl LTC4332Register {
    /// The address of the register.
    pub open spec fn code(self) -> u8 {
        match self {
            LTC4332Register::CONFIG => 0x00,
            LTC4332Register::STATUS => 0x01,
            LTC4332Register::EVENT => 0x02,
            LTC4332Register::INT => 0x03,
            LTC4332Register::FAULT => 0x04,
            LTC4332Register::WORD_LENGTH => 0x05,
            LTC4332Register::SCRATCH => 0x06,
        }
    }

    pub fn to_u8(self) -> (r: u8)
        ensures
            r == self.code(),
            r < 8,
    {
        match self {
            LTC4332Register::CONFIG => 0x00,
            LTC4332Register::STATUS => 0x01,
            LTC4332Register::EVENT => 0x02,
            LTC4332Register::INT => 0x03,
            LTC4332Register::FAULT => 0x04,
            LTC4332Register::WORD_LENGTH => 0x05,
            LTC4332Register::SCRATCH => 0x06,
        }
    }
}

/// Where the extender sits, which decides the slaves it forwards to.
#[derive(Debug, Clone, Copy, PartialEq, Eq, Structural)]
pub enum LTC4332Config {
    Ring,
    Center,
    Donut,
}

impl LTC4332Config {
    /// CONFIG value: mode 1 towards slave 1, or towards slaves 1, 2 and 3 for the donut.
    pub fn to_u8(&self) -> (r: u8)
        ensures
            r == match *self {
                LTC4332Config::Ring => 0b0000_0001u8,
                LTC4332Config::Center => 0b0000_0001u8,
                LTC4332Config::Donut => 0b0001_0101u8,
            },
    {
        match self {
            LTC4332Config::Ring => 0b0000_0001,
            LTC4332Config::Center => 0b0000_0001,
            LTC4332Config::Donut => 0b0001_0101,
        }
    }
}

/// The frame that reads one register: the address shifted left with the read bit
/// raised, then two bytes clocked out; the value comes back in the second byte.
pub fn read_register_frame(reg: LTC4332Register) -> (r: [u8; 3])
    ensures
        r@ == seq![(reg.code() * 2 + 1) as u8, 0u8, 0u8],
{
    let r = [reg.to_u8() * 2 + 1, 0u8, 0u8];
    assert(r@ =~= seq![(reg.code() * 2 + 1) as u8, 0u8, 0u8]);
    r
}

/// The value of a register read, the second byte of the exchanged frame.
pub fn read_register_value(reply: [u8; 3]) -> (r: u8)
    ensures
        r == reply[1],
{
    reply[1]
}

/// The frame that writes `data` to one register: the address, then the value.
pub fn write_register_frame(reg: LTC4332Register, data: u8) -> (r: [u8; 2])
    ensures
        r@ == seq![reg.code(), data],
{
    let r = [reg.to_u8(), data];
    assert(r@ =~= seq![reg.code(), data]);
    r
}

/// A register write is confirmed when the frame that reads the register back carries
/// the value written.
pub fn write_confirmed(written: u8, read_back: [u8; 3]) -> (r: bool)
    ensures
        r == (read_back[1] == written),
{
    read_register_value(read_back) == written
}

} // verus!
