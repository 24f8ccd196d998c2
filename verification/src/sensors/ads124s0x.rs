use vstd::prelude::*;

verus! {

/// SPI commands of the ADS124S0x analog-to-digital converter.
#[derive(Debug, Clone, Copy, PartialEq, Eq, Structural)]
pub enum Ads124s0xCommand {
    NOP,
    WAKEUP,
    POWERDOWN,
    RESET,
    START,
    STOP,
    SYOCAL,
    SYGCAL,
    SFOCAL,
    RDATA,
    RREG,
    WREG,
}

impl Ads124s0xCommand {
    /// The opcode of the command.
    pub open spec fn code(self) -> u8 {
        match self {
            Ads124s0xCommand::NOP => 0x00,
            Ads124s0xCommand::WAKEUP => 0x02,
            Ads124s0xCommand::POWERDOWN => 0x04,
            Ads124s0xCommand::RESET => 0x06,
            Ads124s0xCommand::START => 0x08,
            Ads124s0xCommand::STOP => 0x0A,
            Ads124s0xCommand::SYOCAL => 0x16,
            Ads124s0xCommand::SYGCAL => 0x17,
            Ads124s0xCommand::SFOCAL => 0x19,
            Ads124s0xCommand::RDATA => 0x12,
            Ads124s0xCommand::RREG => 0x20,
            Ads124s0xCommand::WREG => 0x40,
        }
    }

    pub fn to_u8(self) -> (r: u8)
        ensures
            r == self.code(),
    {
        match self {
            Ads124s0xCommand::NOP => 0x00,
            Ads124s0xCommand::WAKEUP => 0x02,
            Ads124s0xCommand::POWERDOWN => 0x04,
            Ads124s0xCommand::RESET => 0x06,
            Ads124s0xCommand::START => 0x08,
            Ads124s0xCommand::STOP => 0x0A,
            Ads124s0xCommand::SYOCAL => 0x16,
            Ads124s0xCommand::SYGCAL => 0x17,
            Ads124s0xCommand::SFOCAL => 0x19,
            Ads124s0xCommand::RDATA => 0x12,
            Ads124s0xCommand::RREG => 0x20,
            Ads124s0xCommand::WREG => 0x40,
        }
    }
}

/// Registers of the ADS124S0x.
#[derive(Debug, Clone, Copy, PartialEq, Eq, Structural)]
pub enum Ads124s0xRegister {
    ID,
    STATUS,
    INPMUX,
    PGA,
    DATARATE,
    REF,
    IDACMAG,
    IDACMUX,
    VBIAS,
    SYS,
    OFCAL0,
    OFCAL1,
    OFCAL2,
    FSCAL0,
    FSCAL1,
    FSCAL2,
    GPIODAT,
    GPIOCON,
}

impl Ads124s0xRegister {
    /// The address of the register.
    pub open spec fn code(self) -> u8 {
        match self {
            Ads124s0xRegister::ID => 0x00,
            Ads124s0xRegister::STATUS => 0x01,
            Ads124s0xRegister::INPMUX => 0x02,
            Ads124s0xRegister::PGA => 0x03,
            Ads124s0xRegister::DATARATE => 0x04,
            Ads124s0xRegister::REF => 0x05,
            Ads124s0xRegister::IDACMAG => 0x06,
            Ads124s0xRegister::IDACMUX => 0x07,
            Ads124s0xRegister::VBIAS => 0x08,
            Ads124s0xRegister::SYS => 0x09,
            Ads124s0xRegister::OFCAL0 => 0x0A,
            Ads124s0xRegister::OFCAL1 => 0x0B,
            Ads124s0xRegister::OFCAL2 => 0x0C,
            Ads124s0xRegister::FSCAL0 => 0x0D,
            Ads124s0xRegister::FSCAL1 => 0x0E,
            Ads124s0xRegister::FSCAL2 => 0x0F,
            Ads124s0xRegister::GPIODAT => 0x10,
            Ads124s0xRegister::GPIOCON => 0x11,
        }
    }

    pub fn to_u8(self) -> (r: u8)
        ensures
            r == self.code(),
            r < 0x20,
    {
        match self {
            Ads124s0xRegister::ID => 0x00,
            Ads124s0xRegister::STATUS => 0x01,
            Ads124s0xRegister::INPMUX => 0x02,
            Ads124s0xRegister::PGA => 0x03,
            Ads124s0xRegister::DATARATE => 0x04,
            Ads124s0xRegister::REF => 0x05,
            Ads124s0xRegister::IDACMAG => 0x06,
            Ads124s0xRegister::IDACMUX => 0x07,
            Ads124s0xRegister::VBIAS => 0x08,
            Ads124s0xRegister::SYS => 0x09,
            Ads124s0xRegister::OFCAL0 => 0x0A,
            Ads124s0xRegister::OFCAL1 => 0x0B,
            Ads124s0xRegister::OFCAL2 => 0x0C,
            Ads124s0xRegister::FSCAL0 => 0x0D,
            Ads124s0xRegister::FSCAL1 => 0x0E,
            Ads124s0xRegister::FSCAL2 => 0x0F,
            Ads124s0xRegister::GPIODAT => 0x10,
            Ads124s0xRegister::GPIOCON => 0x11,
        }
    }
}

/// Analog inputs of the input multiplexer.
#[derive(Debug, Clone, Copy, PartialEq, Eq, Structural)]
pub enum Ads124s0xMuxChannel {
    AIN0,
    AIN1,
    AIN2,
    AIN3,
    AIN4,
    AIN5,
    AIN6,
    AIN7,
    AIN8,
    AIN9,
    AIN10,
    AIN11,
    AINCOM,
}

impl Ads124s0xMuxChannel {
    /// The 4-bit selector of the input.
    pub open spec fn code(self) -> u8 {
        match self {
            Ads124s0xMuxChannel::AIN0 => 0,
            Ads124s0xMuxChannel::AIN1 => 1,
            Ads124s0xMuxChannel::AIN2 => 2,
            Ads124s0xMuxChannel::AIN3 => 3,
            Ads124s0xMuxChannel::AIN4 => 4,
            Ads124s0xMuxChannel::AIN5 => 5,
            Ads124s0xMuxChannel::AIN6 => 6,
            Ads124s0xMuxChannel::AIN7 => 7,
            Ads124s0xMuxChannel::AIN8 => 8,
            Ads124s0xMuxChannel::AIN9 => 9,
            Ads124s0xMuxChannel::AIN10 => 10,
            Ads124s0xMuxChannel::AIN11 => 11,
            Ads124s0xMuxChannel::AINCOM => 12,
        }
    }

    pub fn to_u8(self) -> (r: u8)
        ensures
            r == self.code(),
            r < 16,
    {
        match self {
            Ads124s0xMuxChannel::AIN0 => 0,
            Ads124s0xMuxChannel::AIN1 => 1,
            Ads124s0xMuxChannel::AIN2 => 2,
            Ads124s0xMuxChannel::AIN3 => 3,
            Ads124s0xMuxChannel::AIN4 => 4,
            Ads124s0xMuxChannel::AIN5 => 5,
            Ads124s0xMuxChannel::AIN6 => 6,
            Ads124s0xMuxChannel::AIN7 => 7,
            Ads124s0xMuxChannel::AIN8 => 8,
            Ads124s0xMuxChannel::AIN9 => 9,
            Ads124s0xMuxChannel::AIN10 => 10,
            Ads124s0xMuxChannel::AIN11 => 11,
            Ads124s0xMuxChannel::AINCOM => 12,
        }
    }
}

/// Gains of the programmable amplifier.
#[derive(Debug, Clone, Copy, PartialEq, Eq, Structural)]
pub enum Ads124s0xGain {
    Gain1,
    Gain2,
    Gain4,
    Gain8,
    Gain16,
    Gain32,
    Gain64,
    Gain128,
}

impl Ads124s0xGain {
    /// The 3-bit gain selector.
    pub open spec fn code(self) -> u8 {
        match self {
            Ads124s0xGain::Gain1 => 0,
            Ads124s0xGain::Gain2 => 1,
            Ads124s0xGain::Gain4 => 2,
            Ads124s0xGain::Gain8 => 3,
            Ads124s0xGain::Gain16 => 4,
            Ads124s0xGain::Gain32 => 5,
            Ads124s0xGain::Gain64 => 6,
            Ads124s0xGain::Gain128 => 7,
        }
    }

    pub fn to_u8(self) -> (r: u8)
        ensures
            r == self.code(),
            r < 8,
    {
        match self {
            Ads124s0xGain::Gain1 => 0,
            Ads124s0xGain::Gain2 => 1,
            Ads124s0xGain::Gain4 => 2,
            Ads124s0xGain::Gain8 => 3,
            Ads124s0xGain::Gain16 => 4,
            Ads124s0xGain::Gain32 => 5,
            Ads124s0xGain::Gain64 => 6,
            Ads124s0xGain::Gain128 => 7,
        }
    }
}

/// Conversion modes.
#[derive(Debug, Clone, Copy, PartialEq, Eq, Structural)]
pub enum Ads124s0xMode {
    Continuous,
    SingleShot,
}

/// Digital filters.
#[derive(Debug, Clone, Copy, PartialEq, Eq, Structural)]
pub enum Ads124s0xFilter {
    Sinc3,
    LowLatency,
}

/// Output data rates.
#[derive(Debug, Clone, Copy, PartialEq, Eq, Structural)]
pub enum Ads124s0xDataRate {
    DR2SPS,
    DR5SPS,
    DR10SPS,
    DR16SPS,
    DR20SPS,
    DR50SPS,
    DR60SPS,
    DR100SPS,
    DR200SPS,
    DR400SPS,
    DR800SPS,
    DR1000SPS,
    DR2000SPS,
    DR4000SPS,
}

impl Ads124s0xDataRate {
    /// The 4-bit rate selector.
    pub open spec fn code(self) -> u8 {
        match self {
            Ads124s0xDataRate::DR2SPS => 0,
            Ads124s0xDataRate::DR5SPS => 1,
            Ads124s0xDataRate::DR10SPS => 2,
            Ads124s0xDataRate::DR16SPS => 3,
            Ads124s0xDataRate::DR20SPS => 4,
            Ads124s0xDataRate::DR50SPS => 5,
            Ads124s0xDataRate::DR60SPS => 6,
            Ads124s0xDataRate::DR100SPS => 7,
            Ads124s0xDataRate::DR200SPS => 8,
            Ads124s0xDataRate::DR400SPS => 9,
            Ads124s0xDataRate::DR800SPS => 10,
            Ads124s0xDataRate::DR1000SPS => 11,
            Ads124s0xDataRate::DR2000SPS => 12,
            Ads124s0xDataRate::DR4000SPS => 13,
        }
    }

    pub fn to_u8(self) -> (r: u8)
        ensures
            r == self.code(),
            r < 16,
    {
        match self {
            Ads124s0xDataRate::DR2SPS => 0,
            Ads124s0xDataRate::DR5SPS => 1,
            Ads124s0xDataRate::DR10SPS => 2,
            Ads124s0xDataRate::DR16SPS => 3,
            Ads124s0xDataRate::DR20SPS => 4,
            Ads124s0xDataRate::DR50SPS => 5,
            Ads124s0xDataRate::DR60SPS => 6,
            Ads124s0xDataRate::DR100SPS => 7,
            Ads124s0xDataRate::DR200SPS => 8,
            Ads124s0xDataRate::DR400SPS => 9,
            Ads124s0xDataRate::DR800SPS => 10,
            Ads124s0xDataRate::DR1000SPS => 11,
            Ads124s0xDataRate::DR2000SPS => 12,
            Ads124s0xDataRate::DR4000SPS => 13,
        }
    }
}

/// Reference inputs.
#[derive(Debug, Clone, Copy, PartialEq, Eq, Structural)]
pub enum Ads124s0xRef {
    Ref0,
    Ref1,
    Ref2V5,
}

/// Configurations of the internal reference.
#[derive(Debug, Clone, Copy, PartialEq, Eq, Structural)]
pub enum Ads124s0xInternalRefConf {
    IntRefOff,
    IntRefPD,
    IntRefOn,
}

// ---------------------------------------------------------------------------
// SPI frames
// ---------------------------------------------------------------------------

/// The one-byte frame of a command.
pub fn command_frame(command: Ads124s0xCommand) -> (r: [u8; 1])
    ensures
        r@ == seq![command.code()],
{
    let r = [command.to_u8()];
    assert(r@ =~= seq![command.code()]);
    r
}

/// The frame that reads one register: the RREG opcode with the address, then a byte
/// clocked out while the value comes in.
pub fn read_register_frame(reg: Ads124s0xRegister) -> (r: [u8; 2])
    ensures
        r@ == seq![(0x20 + reg.code()) as u8, 0u8],
{
    let r = [reg.to_u8() + 0x20, 0u8];
    assert(r@ =~= seq![(0x20 + reg.code()) as u8, 0u8]);
    r
}

/// The value of a register read, the second byte of the exchanged frame.
pub fn read_register_value(reply: [u8; 2]) -> (r: u8)
    ensures
        r == reply[1],
{
    reply[1]
}

/// The frame that writes `data` to one register: the WREG opcode with the address, a
/// count of one register, then the value.
pub fn write_register_frame(reg: Ads124s0xRegister, data: u8) -> (r: [u8; 3])
    ensures
        r@ == seq![(0x40 + reg.code()) as u8, 1u8, data],
{
    let r = [reg.to_u8() + 0x40, 0x01u8, data];
    assert(r@ =~= seq![(0x40 + reg.code()) as u8, 1u8, data]);
    r
}

/// A register write is confirmed when the frame that reads the register back carries
/// the value written.
pub fn write_confirmed(written: u8, read_back: [u8; 2]) -> (r: bool)
    ensures
        r == (read_back[1] == written),
{
    read_register_value(read_back) == written
}

/// The frame that reads one conversion: the RDATA opcode, then three bytes clocked
/// out while the result comes in.
pub fn read_data_frame() -> (r: [u8; 4])
    ensures
        r@ == seq![0x12u8, 0u8, 0u8, 0u8],
{
    let r = [Ads124s0xCommand::RDATA.to_u8(), 0x00u8, 0x00u8, 0x00u8];
    assert(r@ =~= seq![0x12u8, 0u8, 0u8, 0u8]);
    r
}

/// The 24-bit conversion result carried most significant byte first in bytes 1 to 3 of
/// the exchanged frame.
pub fn adc_value(reply: [u8; 4]) -> (r: u32)
    ensures
        r == reply[1] * 0x1_0000 + reply[2] * 0x100 + reply[3],
        r < 0x100_0000,
{
    (reply[1] as u32) * 0x1_0000 + (reply[2] as u32) * 0x100 + reply[3] as u32
}

// ---------------------------------------------------------------------------
// Register values
// ---------------------------------------------------------------------------

/// The converter is ready: the power-on-reset flag, bit 6 of STATUS, is clear.
pub fn status_ok(status: u8) -> (r: bool)
    ensures
        r == ((status / 64) % 2 == 0),
{
    (status / 64) % 2 == 0
}

/// STATUS with its power-on-reset flag, bit 7, cleared and the other bits kept.
pub fn power_on_reset_cleared(status: u8) -> (r: u8)
    ensures
        r == status % 128,
{
    status % 128
}

/// INPMUX selecting `muxp` as positive input (high nibble) and `muxn` as negative
/// input (low nibble).
pub fn mux_register(muxp: Ads124s0xMuxChannel, muxn: Ads124s0xMuxChannel) -> (r: u8)
    ensures
        r / 16 == muxp.code(),
        r % 16 == muxn.code(),
{
    muxp.to_u8() * 16 + muxn.to_u8()
}

/// PGA with its gain field, bits 0-2, set to `gain` and the other bits kept.
pub fn pga_with_gain(pga: u8, gain: Ads124s0xGain) -> (r: u8)
    ensures
        r % 8 == gain.code(),
        r / 8 == pga / 8,
{
    (pga / 8) * 8 + gain.to_u8()
}

/// PGA with its enable field, bits 3-4, set to 01 (amplifier on) and the other bits
/// kept.
pub fn pga_enabled(pga: u8) -> (r: u8)
    ensures
        r % 8 == pga % 8,
        (r / 8) % 4 == 1,
        r / 32 == pga / 32,
{
    (pga / 32) * 32 + 8 + pga % 8
}

/// PGA with its enable field, bits 3-4, set to 00 (amplifier bypassed) and the other
/// bits kept.
pub fn pga_disabled(pga: u8) -> (r: u8)
    ensures
        r % 8 == pga % 8,
        (r / 8) % 4 == 0,
        r / 32 == pga / 32,
{
    (pga / 32) * 32 + pga % 8
}

/// The DATARATE value written for a conversion mode: single shot raises bit 4 and
/// keeps the rest; continuous keeps bit 4 alone and drops every other bit.
pub fn datarate_with_mode(datarate: u8, mode: Ads124s0xMode) -> (r: u8)
    ensures
        mode == Ads124s0xMode::SingleShot ==> r % 16 == datarate % 16 && (r / 16) % 2 == 1 && r
            / 32 == datarate / 32,
        mode == Ads124s0xMode::Continuous ==> r == ((datarate / 16) % 2) * 16,
{
    match mode {
        Ads124s0xMode::Continuous => ((datarate / 16) % 2) * 16,
        Ads124s0xMode::SingleShot => (datarate / 32) * 32 + 16 + datarate % 16,
    }
}

/// The DATARATE value written for a filter: low latency raises bit 3 and keeps the
/// rest; sinc3 keeps bit 3 alone and drops every other bit.
pub fn datarate_with_filter(datarate: u8, filter: Ads124s0xFilter) -> (r: u8)
    ensures
        filter == Ads124s0xFilter::LowLatency ==> r % 8 == datarate % 8 && (r / 8) % 2 == 1 && r
            / 16 == datarate / 16,
        filter == Ads124s0xFilter::Sinc3 ==> r == ((datarate / 8) % 2) * 8,
{
    match filter {
        Ads124s0xFilter::Sinc3 => ((datarate / 8) % 2) * 8,
        Ads124s0xFilter::LowLatency => (datarate / 16) * 16 + 8 + datarate % 8,
    }
}

/// The DATARATE value written for a rate: the low nibble of the register, bitwise or
/// the rate selector; the high nibble is dropped.
pub fn datarate_with_rate(datarate: u8, rate: Ads124s0xDataRate) -> (r: u8)
    ensures
        r == (datarate % 16) | rate.code(),
        r < 16,
{
    let low = datarate % 16;
    let code = rate.to_u8();
    assert(low < 16 && code < 16 ==> low | code < 16) by (bit_vector);
    low | code
}

/// The reference value written for a reference selection, from the value read from
/// REF; it keeps only the low two bits, with the selector in them. The board sends it
/// to the DATARATE register.
pub fn reference_with(reference: u8, selected: Ads124s0xRef) -> (r: u8)
    ensures
        selected == Ads124s0xRef::Ref0 ==> r == reference % 4,
        selected == Ads124s0xRef::Ref1 ==> r == ((reference / 2) % 2) * 2 + 1,
        selected == Ads124s0xRef::Ref2V5 ==> r == reference % 2 + 2,
{
    match selected {
        Ads124s0xRef::Ref0 => reference % 4,
        Ads124s0xRef::Ref1 => ((reference / 2) % 2) * 2 + 1,
        Ads124s0xRef::Ref2V5 => reference % 2 + 2,
    }
}

/// The reference value written for an internal reference configuration, from the value
/// read from REF; it keeps only the low two bits, with the selector in them. The board
/// sends it to the DATARATE register.
pub fn reference_with_internal(reference: u8, conf: Ads124s0xInternalRefConf) -> (r: u8)
    ensures
        conf == Ads124s0xInternalRefConf::IntRefOff ==> r == reference % 4,
        conf == Ads124s0xInternalRefConf::IntRefPD ==> r == ((reference / 2) % 2) * 2 + 1,
        conf == Ads124s0xInternalRefConf::IntRefOn ==> r == reference % 2 + 2,
{
    match conf {
        Ads124s0xInternalRefConf::IntRefOff => reference % 4,
        Ads124s0xInternalRefConf::IntRefPD => ((reference / 2) % 2) * 2 + 1,
        Ads124s0xInternalRefConf::IntRefOn => reference % 2 + 2,
    }
}

} // verus!
