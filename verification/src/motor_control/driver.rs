use vstd::prelude::*;

use super::foc::spec_reply_value;

verus! {

/// Datagram of a TMC6200 register access: the address with bit 7 raised for a write,
/// then the data most significant byte first (sent for reads too).
pub open spec fn spec_tmc6200_frame(write_bit: bool, addr: u8, data: u32) -> Seq<u8> {
    seq![
        if write_bit {
            addr | 0x80
        } else {
            addr
        },
        (data / 0x100_0000) as u8,
        ((data / 0x1_0000) % 256) as u8,
        ((data / 0x100) % 256) as u8,
        (data % 256) as u8,
    ]
}

/// Builds the datagram of a TMC6200 register access.
pub fn tmc6200_frame(write_bit: bool, addr: u8, data: u32) -> (r: [u8; 5])
    ensures
        r@ == spec_tmc6200_frame(write_bit, addr, data),
        spec_reply_value(r@) == data,
{
    let msb_data = if write_bit {
        addr | 0b1000_0000
    } else {
        addr
    };
    let r = [
        msb_data,
        (data / 0x100_0000) as u8,
        ((data / 0x1_0000) % 256) as u8,
        ((data / 0x100) % 256) as u8,
        (data % 256) as u8,
    ];
    assert(r@ =~= spec_tmc6200_frame(write_bit, addr, data));
    assert(data % 256 + 0x100 * ((data / 0x100) % 256) + 0x1_0000 * ((data / 0x1_0000) % 256)
        + 0x100_0000 * (data / 0x100_0000) == data) by (bit_vector);
    assert(data / 0x100_0000 < 256) by (bit_vector);
    r
}

/// Number of bits set in the low `n` bits of `v`.
pub open spec fn ones(v: u16, n: nat) -> nat
    decreases n,
{
    if n == 0 {
        0
    } else {
        (v % 2) as nat + ones(v / 2, (n - 1) as nat)
    }
}

pub(crate) fn count_ones(v: u16) -> (r: u32)
    ensures
        r == ones(v, 16),
        r <= 16,
{
    let mut count: u32 = 0;
    let mut rest: u16 = v;
    let mut k: u32 = 0;
    while k < 16
        invariant
            k <= 16,
            count <= k,
            count + ones(rest, (16 - k) as nat) == ones(v, 16),
        decreases 16 - k,
    {
        count = count + (rest % 2) as u32;
        rest = rest / 2;
        k = k + 1;
    }
    count
}

/// Datagram of a DRV8316 register access, most significant byte first: bit 15 raised
/// for a read, the address in bits 9-14, bit 8 the parity bit that makes the number of
/// raised bits even, and the data in the low byte (zero for a read).
pub open spec fn spec_drv8316_word(write_bit: bool, addr: u8, data: u8) -> u16 {
    let msb: u8 = if write_bit {
        ((addr as int * 2) % 256) as u8
    } else {
        (((addr as int * 2) % 256) as u8) | 0x80
    };
    let d: u8 = if write_bit {
        data
    } else {
        0
    };
    let w = (msb as int * 256 + d) as u16;
    if ones(w, 16) % 2 != 0 {
        (w + 0x100) as u16
    } else {
        w
    }
}

/// Builds the datagram of a DRV8316 register access.
pub fn drv8316_frame(write_bit: bool, addr: u8, data: u8) -> (r: [u8; 2])
    ensures
        r@ == seq![
            (spec_drv8316_word(write_bit, addr, data) / 256) as u8,
            (spec_drv8316_word(write_bit, addr, data) % 256) as u8,
        ],
{
    let mut msb_data: u8 = addr << 1u8;
    assert(addr << 1u8 == (addr as int * 2) % 256) by (bit_vector);
    let mut d = data;
    if write_bit == false {
        msb_data = msb_data | 0b1000_0000;
        d = 0x00;
    }
    let mut transfer_data: u16 = ((msb_data as u16) << 8u16) | d as u16;
    assert(((msb_data as u16) << 8u16) | d as u16 == msb_data as int * 256 + d) by (bit_vector);
    proof {
        assert(msb_data % 2 == 0) by {
            assert(((addr << 1u8) | 0x80u8) % 2 == 0 && (addr << 1u8) % 2 == 0) by (bit_vector);
        }
    }
    if count_ones(transfer_data) % 2 != 0 {
        assert((msb_data as int * 256 + d) + 0x100 <= 0xFFFF);
        transfer_data = transfer_data | 0x0100;
        assert(msb_data % 2 == 0 ==> (((msb_data as u16) * 256 + d as u16) as u16) | 0x0100u16
            == (msb_data as u16) * 256 + d as u16 + 0x100) by (bit_vector);
    }
    let r = [(transfer_data / 256) as u8, (transfer_data % 256) as u8];
    assert(r@ =~= seq![
        (spec_drv8316_word(write_bit, addr, data) / 256) as u8,
        (spec_drv8316_word(write_bit, addr, data) % 256) as u8,
    ]);
    r
}


/// Bit `k` of `v`.
pub open spec fn bit_at(v: int, k: nat) -> int
    decreases k,
{
    if k == 0 {
        v % 2
    } else {
        bit_at(v / 2, (k - 1) as nat)
    }
}

/// `2^k`.
pub open spec fn pow2(k: nat) -> int
    decreases k,
{
    if k == 0 {
        1
    } else {
        2 * pow2((k - 1) as nat)
    }
}

proof fn lemma_pow2_pos(k: nat)
    ensures
        pow2(k) >= 1,
    decreases k,
{
    if k > 0 {
        lemma_pow2_pos((k - 1) as nat);
    }
}

proof fn lemma_ones_add_bit(v: u16, k: nat, n: nat)
    requires
        k < n,
        bit_at(v as int, k) == 0,
        v + pow2(k) <= 0xFFFF,
    ensures
        ones((v + pow2(k)) as u16, n) == ones(v, n) + 1,
    decreases k,
{
    lemma_pow2_pos(k);
    let w = (v + pow2(k)) as u16;
    assert(w == v + pow2(k));
    if k == 0 {
        assert(w % 2 == 1 && v % 2 == 0);
        assert(w / 2 == v / 2);
    } else {
        assert(pow2(k) == 2 * pow2((k - 1) as nat));
        lemma_pow2_pos((k - 1) as nat);
        assert(w % 2 == v % 2);
        assert(w / 2 == v / 2 + pow2((k - 1) as nat));
        lemma_ones_add_bit(v / 2, (k - 1) as nat, (n - 1) as nat);
    }
}

/// Every DRV8316 datagram has an even number of raised bits.
pub proof fn law_drv8316_even_parity(write_bit: bool, addr: u8, data: u8)
    ensures
        ones(spec_drv8316_word(write_bit, addr, data), 16) % 2 == 0,
{
    let msb: u8 = if write_bit {
        ((addr as int * 2) % 256) as u8
    } else {
        (((addr as int * 2) % 256) as u8) | 0x80
    };
    let d: u8 = if write_bit {
        data
    } else {
        0
    };
    assert(msb % 2 == 0) by {
        let a2 = ((addr as int * 2) % 256) as u8;
        assert(a2 % 2 == 0);
        assert(a2 % 2 == 0 ==> (a2 | 0x80u8) % 2 == 0) by (bit_vector);
    }
    let w = (msb as int * 256 + d) as u16;
    assert(w == msb as int * 256 + d);
    reveal_with_fuel(bit_at, 9);
    assert(bit_at(w as int, 8) == (msb as int) % 2);
    if ones(w, 16) % 2 != 0 {
        reveal_with_fuel(pow2, 9);
        assert(pow2(8) == 256);
        lemma_ones_add_bit(w, 8, 16);
    }
}

/// Failures of a gate driver.
#[derive(Debug, Clone, Copy, PartialEq, Eq, Structural)]
pub enum DriverError {
    /// A configuration write did not read back as written.
    ConfigError,
    /// The driver signals a fault.
    FaultState,
}

/// The register writes that configure the TMC6200, in order: single-line (6-PWM)
/// mode in GCONF, then the driver strength register cleared.
pub fn tmc6200_configuration() -> (r: [(u8, u32); 2])
    ensures
        r@ == seq![(0x00u8, 0u32), (0x0Au8, 0u32)],
{
    let r = [(0x00u8, 0x0000_0000u32), (0x0Au8, 0x0000_0000u32)];
    assert(r@ =~= seq![(0x00u8, 0u32), (0x0Au8, 0u32)]);
    r
}

/// The register writes that configure the DRV8316, in order: unlock the registers
/// (control register 1), the fastest slew rate (control register 2) and a current
/// sense gain of 0.3 V/A (control register 5).
pub fn drv8316_configuration() -> (r: [(u8, u8); 3])
    ensures
        r@ == seq![(0x3u8, 0x03u8), (0x4u8, 0x78u8), (0x7u8, 0x01u8)],
{
    let slew_rate: u8 = 0x60u8 | (0b11u8 << 3u8);
    assert(0x60u8 | (0b11u8 << 3u8) == 0x78u8) by (bit_vector);
    let r = [(0x3u8, 0b011u8), (0x4u8, slew_rate), (0x7u8, 0x1u8)];
    assert(r@ =~= seq![(0x3u8, 0x03u8), (0x4u8, 0x78u8), (0x7u8, 0x01u8)]);
    r
}

/// A checked DRV8316 write succeeded: the data byte of the read-back datagram is the
/// byte written.
pub fn drv8316_write_confirmed(written: u8, reply: [u8; 2]) -> (r: bool)
    ensures
        r == (reply[1] == written),
{
    written == reply[1]
}

/// The outcome of a configuration: every write is attempted, and the configuration
/// fails when any of them failed.
pub fn configuration_result(confirmed: &[bool]) -> (r: Result<(), DriverError>)
    ensures
        r is Ok <==> forall|k: int| 0 <= k < confirmed@.len() ==> confirmed@[k],
        r is Err ==> r == Err::<(), DriverError>(DriverError::ConfigError),
{
    let mut failed = false;
    let mut k: usize = 0;
    while k < confirmed.len()
        invariant
            k <= confirmed@.len(),
            failed <==> exists|j: int| 0 <= j < k && !confirmed@[j],
        decreases confirmed@.len() - k,
    {
        if !confirmed[k] {
            failed = true;
        }
        k = k + 1;
    }
    if failed {
        Err(DriverError::ConfigError)
    } else {
        Ok(())
    }
}

/// The TMC6200 raises its status line on a fault.
pub fn tmc6200_status(status_high: bool) -> (r: Result<(), DriverError>)
    ensures
        r == if status_high {
            Err::<(), DriverError>(DriverError::FaultState)
        } else {
            Ok(())
        },
{
    if !status_high {
        Ok(())
    } else {
        Err(DriverError::FaultState)
    }
}

/// The DRV8316 pulls its status line low on a fault; a fault only counts while the
/// driver is enabled.
pub fn drv8316_status(status_high: bool, is_enabled: bool) -> (r: Result<(), DriverError>)
    ensures
        r == if !status_high && is_enabled {
            Err::<(), DriverError>(DriverError::FaultState)
        } else {
            Ok(())
        },
{
    if status_high {
        Ok(())
    } else if is_enabled {
        Err(DriverError::FaultState)
    } else {
        Ok(())
    }
}

} // verus!
