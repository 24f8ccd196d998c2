use vstd::prelude::*;

verus! {

/// Registers of the LAN9252 reachable over SPI.
#[derive(Debug, Clone, Copy, PartialEq, Eq, Structural)]
pub enum Lan9252Registers {
    EcatPramRdDataStart,
    EcatPramRdDataEnd,
    EcatPramWrDataStart,
    EcatPramWrDataEnd,
    IdRev,
    IrqCfg,
    IntSts,
    IntEn,
    ByteTest,
    HwCfg,
    PmtCtrl,
    GptCfg,
    GptCnt,
    FreeRun,
    ResetCtl,
    EcatCsrData,
    EcatCsrCmd,
    EcatPramRdAddrLen,
    EcatPramRdCmd,
    EcatPramWrAddrLen,
    EcatPramWrCmd,
    EcatEepromControlStatus,
    EcatEepromAddr,
    EcatEepromData,
}

impl Lan9252Registers {
    /// SPI address of the register.
    pub open spec fn spec_address(self) -> u16 {
        match self {
            Lan9252Registers::EcatPramRdDataStart => 0x000,
            Lan9252Registers::EcatPramRdDataEnd => 0x01C,
            Lan9252Registers::EcatPramWrDataStart => 0x020,
            Lan9252Registers::EcatPramWrDataEnd => 0x03C,
            Lan9252Registers::IdRev => 0x050,
            Lan9252Registers::IrqCfg => 0x054,
            Lan9252Registers::IntSts => 0x058,
            Lan9252Registers::IntEn => 0x05C,
            Lan9252Registers::ByteTest => 0x064,
            Lan9252Registers::HwCfg => 0x074,
            Lan9252Registers::PmtCtrl => 0x084,
            Lan9252Registers::GptCfg => 0x08C,
            Lan9252Registers::GptCnt => 0x090,
            Lan9252Registers::FreeRun => 0x09C,
            Lan9252Registers::ResetCtl => 0x1F8,
            Lan9252Registers::EcatCsrData => 0x300,
            Lan9252Registers::EcatCsrCmd => 0x304,
            Lan9252Registers::EcatPramRdAddrLen => 0x308,
            Lan9252Registers::EcatPramRdCmd => 0x30C,
            Lan9252Registers::EcatPramWrAddrLen => 0x310,
            Lan9252Registers::EcatPramWrCmd => 0x314,
            Lan9252Registers::EcatEepromControlStatus => 0x502,
            Lan9252Registers::EcatEepromAddr => 0x504,
            Lan9252Registers::EcatEepromData => 0x508,
        }
    }

    /// SPI address of the register.
    pub fn address(self) -> (r: u16)
        ensures
            r == self.spec_address(),
    {
        match self {
            Lan9252Registers::EcatPramRdDataStart => 0x000,
            Lan9252Registers::EcatPramRdDataEnd => 0x01C,
            Lan9252Registers::EcatPramWrDataStart => 0x020,
            Lan9252Registers::EcatPramWrDataEnd => 0x03C,
            Lan9252Registers::IdRev => 0x050,
            Lan9252Registers::IrqCfg => 0x054,
            Lan9252Registers::IntSts => 0x058,
            Lan9252Registers::IntEn => 0x05C,
            Lan9252Registers::ByteTest => 0x064,
            Lan9252Registers::HwCfg => 0x074,
            Lan9252Registers::PmtCtrl => 0x084,
            Lan9252Registers::GptCfg => 0x08C,
            Lan9252Registers::GptCnt => 0x090,
            Lan9252Registers::FreeRun => 0x09C,
            Lan9252Registers::ResetCtl => 0x1F8,
            Lan9252Registers::EcatCsrData => 0x300,
            Lan9252Registers::EcatCsrCmd => 0x304,
            Lan9252Registers::EcatPramRdAddrLen => 0x308,
            Lan9252Registers::EcatPramRdCmd => 0x30C,
            Lan9252Registers::EcatPramWrAddrLen => 0x310,
            Lan9252Registers::EcatPramWrCmd => 0x314,
            Lan9252Registers::EcatEepromControlStatus => 0x502,
            Lan9252Registers::EcatEepromAddr => 0x504,
            Lan9252Registers::EcatEepromData => 0x508,
        }
    }
}

/// SPI read instruction.
pub const SPI_READ: u8 = 0x03;
/// SPI write instruction.
pub const SPI_WRITE: u8 = 0x02;
/// Write command of the EtherCAT CSR interface.
pub const ESC_WRITE: u8 = 0x80;
/// Read command of the EtherCAT CSR interface.
pub const ESC_READ: u8 = 0xC0;
/// Largest process RAM transfer in one go.
pub const MAX_CHUNK_SIZE: usize = 64;

/// SPI frame of a register access: instruction, address high byte, address low byte,
/// then the bytes to shift out.
pub open spec fn spec_spi_frame(write_bit: bool, addr: u16, data: Seq<u8>) -> Seq<u8> {
    seq![if write_bit { SPI_WRITE } else { SPI_READ }, (addr / 256) as u8, (addr % 256) as u8]
        + data
}

/// Builds the SPI frame of a register access.
pub fn spi_frame(write_bit: bool, addr: u16, data: &[u8]) -> (r: Vec<u8>)
    ensures
        r@ == spec_spi_frame(write_bit, addr, data@),
{
    let mut frame: Vec<u8> = Vec::new();
    frame.push(if write_bit {
        SPI_WRITE
    } else {
        SPI_READ
    });
    frame.push((addr / 256) as u8);
    frame.push((addr % 256) as u8);
    let mut i: usize = 0;
    while i < data.len()
        invariant
            i <= data@.len(),
            frame@ =~= seq![if write_bit { SPI_WRITE } else { SPI_READ }, (addr / 256) as u8, (addr
                % 256) as u8] + data@.take(i as int),
        decreases data@.len() - i,
    {
        frame.push(data[i]);
        i = i + 1;
    }
    assert(data@.take(data@.len() as int) =~= data@);
    frame
}

/// Command word of an indirect (CSR) access: address low and high bytes, length, and
/// the read or write command.
pub open spec fn spec_csr_command(address: u16, len: u8, write: bool) -> Seq<u8> {
    seq![(address % 256) as u8, (address / 256) as u8, len, if write { ESC_WRITE } else { ESC_READ }]
}

/// Builds the command word of an indirect register access of `len` bytes.
pub fn csr_command(address: u16, len: u8, write: bool) -> (r: [u8; 4])
    ensures
        r@ == spec_csr_command(address, len, write),
{
    let cmd: [u8; 4] = [
        (address & 0x00ff) as u8,
        ((address & 0xff00) >> 8u16) as u8,
        len,
        if write {
            ESC_WRITE
        } else {
            ESC_READ
        },
    ];
    assert((address & 0x00ff) == address % 256 && ((address & 0xff00) >> 8u16) == address / 256)
        by (bit_vector);
    assert(cmd@ =~= spec_csr_command(address, len, write));
    cmd
}

/// `len` rounded up to a whole number of 4-byte words.
pub open spec fn spec_round_to_dword(len: int) -> int {
    if len % 4 == 0 {
        len
    } else {
        len + 4 - len % 4
    }
}

/// Rounds a process RAM transfer length up to whole 4-byte words.
pub fn round_to_dword(len: usize) -> (r: usize)
    requires
        len + 3 <= usize::MAX,
    ensures
        r == spec_round_to_dword(len as int),
        r % 4 == 0,
        len <= r < len + 4,
{
    match len % 4 {
        0 => len,
        _ => len + 4 - (len % 4),
    }
}

/// Address and length word of a process RAM transfer: address low and high bytes, then
/// the rounded length (low and high bytes).
pub open spec fn spec_pram_addr_len(address: u16, round_len: u16) -> Seq<u8> {
    seq![(address % 256) as u8, (address / 256) as u8, (round_len % 256) as u8, (round_len
        / 256) as u8]
}

/// Builds the address and length word of a process RAM transfer.
pub fn pram_addr_len(address: u16, round_len: u16) -> (r: [u8; 4])
    ensures
        r@ == spec_pram_addr_len(address, round_len),
{
    let r = [
        (address % 256) as u8,
        (address / 256) as u8,
        (round_len % 256) as u8,
        (round_len / 256) as u8,
    ];
    assert(r@ =~= spec_pram_addr_len(address, round_len));
    r
}

/// A large transfer split into pieces of at most 64 bytes: piece `k` covers bytes
/// `64 k ..` of the data at address `address + 64 k`.
pub open spec fn chunks_cover(chunks: Seq<(u16, usize, usize)>, address: u16, len: int) -> bool {
    &&& chunks.len() == (len + 63) / 64
    &&& forall|k: int|
        0 <= k < chunks.len() ==> {
            let c = #[trigger] chunks[k];
            &&& c.1 == 64 * k
            &&& c.0 == address + 64 * k
            &&& c.2 == if len - 64 * k > 64 {
                64
            } else {
                len - 64 * k
            }
        }
}

/// The pieces of a transfer of `len` bytes starting at `address`, in order.
pub fn transfer_chunks(address: u16, len: usize) -> (r: Vec<(u16, usize, usize)>)
    requires
        address + len <= 0xFFFF,
    ensures
        chunks_cover(r@, address, len as int),
{
    let mut chunks: Vec<(u16, usize, usize)> = Vec::new();
    let mut current_address = address;
    let mut remaining_len = len;
    let mut offset: usize = 0;
    while remaining_len > 0
        invariant
            address + len <= 0xFFFF,
            offset + remaining_len == len,
            current_address == address + offset,
            remaining_len > 0 ==> offset == 64 * chunks@.len(),
            remaining_len > 0 ==> chunks@.len() < (len + 63) / 64,
            remaining_len == 0 ==> chunks@.len() == (len + 63) / 64,
            forall|k: int|
                0 <= k < chunks@.len() ==> {
                    let c = #[trigger] chunks@[k];
                    &&& c.1 == 64 * k
                    &&& c.0 == address + 64 * k
                    &&& c.2 == if len - 64 * k > 64 {
                        64
                    } else {
                        len - 64 * k
                    }
                },
        decreases remaining_len,
    {
        let chunk_size = if remaining_len > MAX_CHUNK_SIZE {
            MAX_CHUNK_SIZE
        } else {
            remaining_len
        };
        chunks.push((current_address, offset, chunk_size));
        current_address += chunk_size as u16;
        offset += chunk_size;
        remaining_len -= chunk_size;
    }
    chunks
}

} // verus!
