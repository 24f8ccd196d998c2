use vstd::prelude::*;

use super::driver::{count_ones, ones};

verus! {

/// Failures of a sensor read.
#[derive(Debug, Clone, Copy, PartialEq, Eq, Structural)]
pub enum IOError {
    SpiError,
    InvalidData,
}

/// Lookup table of the CRC with polynomial 0x97 (x^8 + x^7 + x^4 + x^2 + x + 1).
pub const CRC8_LUT: [u8; 256] = [
    0x00, 0x97, 0xB9, 0x2E, 0xE5, 0x72, 0x5C, 0xCB, 0x5D, 0xCA, 0xE4, 0x73, 0xB8, 0x2F, 0x01, 0x96,
    0xBA, 0x2D, 0x03, 0x94, 0x5F, 0xC8, 0xE6, 0x71, 0xE7, 0x70, 0x5E, 0xC9, 0x02, 0x95, 0xBB, 0x2C,
    0xE3, 0x74, 0x5A, 0xCD, 0x06, 0x91, 0xBF, 0x28, 0xBE, 0x29, 0x07, 0x90, 0x5B, 0xCC, 0xE2, 0x75,
    0x59, 0xCE, 0xE0, 0x77, 0xBC, 0x2B, 0x05, 0x92, 0x04, 0x93, 0xBD, 0x2A, 0xE1, 0x76, 0x58, 0xCF,
    0x51, 0xC6, 0xE8, 0x7F, 0xB4, 0x23, 0x0D, 0x9A, 0x0C, 0x9B, 0xB5, 0x22, 0xE9, 0x7E, 0x50, 0xC7,
    0xEB, 0x7C, 0x52, 0xC5, 0x0E, 0x99, 0xB7, 0x20, 0xB6, 0x21, 0x0F, 0x98, 0x53, 0xC4, 0xEA, 0x7D,
    0xB2, 0x25, 0x0B, 0x9C, 0x57, 0xC0, 0xEE, 0x79, 0xEF, 0x78, 0x56, 0xC1, 0x0A, 0x9D, 0xB3, 0x24,
    0x08, 0x9F, 0xB1, 0x26, 0xED, 0x7A, 0x54, 0xC3, 0x55, 0xC2, 0xEC, 0x7B, 0xB0, 0x27, 0x09, 0x9E,
    0xA2, 0x35, 0x1B, 0x8C, 0x47, 0xD0, 0xFE, 0x69, 0xFF, 0x68, 0x46, 0xD1, 0x1A, 0x8D, 0xA3, 0x34,
    0x18, 0x8F, 0xA1, 0x36, 0xFD, 0x6A, 0x44, 0xD3, 0x45, 0xD2, 0xFC, 0x6B, 0xA0, 0x37, 0x19, 0x8E,
    0x41, 0xD6, 0xF8, 0x6F, 0xA4, 0x33, 0x1D, 0x8A, 0x1C, 0x8B, 0xA5, 0x32, 0xF9, 0x6E, 0x40, 0xD7,
    0xFB, 0x6C, 0x42, 0xD5, 0x1E, 0x89, 0xA7, 0x30, 0xA6, 0x31, 0x1F, 0x88, 0x43, 0xD4, 0xFA, 0x6D,
    0xF3, 0x64, 0x4A, 0xDD, 0x16, 0x81, 0xAF, 0x38, 0xAE, 0x39, 0x17, 0x80, 0x4B, 0xDC, 0xF2, 0x65,
    0x49, 0xDE, 0xF0, 0x67, 0xAC, 0x3B, 0x15, 0x82, 0x14, 0x83, 0xAD, 0x3A, 0xF1, 0x66, 0x48, 0xDF,
    0x10, 0x87, 0xA9, 0x3E, 0xF5, 0x62, 0x4C, 0xDB, 0x4D, 0xDA, 0xF4, 0x63, 0xA8, 0x3F, 0x11, 0x86,
    0xAA, 0x3D, 0x13, 0x84, 0x4F, 0xD8, 0xF6, 0x61, 0xF7, 0x60, 0x4E, 0xD9, 0x12, 0x85, 0xAB, 0x3C,
];

/// Byte `k` of `v`, counting from the most significant of the eight.
pub open spec fn byte_of_u64(v: u64, k: int) -> u8 {
    ((v as int / pow256(7 - k)) % 256) as u8
}

/// `256^k`.
pub open spec fn pow256(k: int) -> int
    decreases k,
{
    if k <= 0 {
        1
    } else {
        256 * pow256(k - 1)
    }
}

/// Table-driven CRC state after the first `n` bytes (most significant first): the first
/// byte is the start index, and each following byte is xored with the table entry of
/// the running index.
pub open spec fn crc97_index(v: u64, n: nat) -> u8
    decreases n,
{
    if n <= 1 {
        byte_of_u64(v, 0)
    } else {
        byte_of_u64(v, n - 1) ^ CRC8_LUT@[crc97_index(v, (n - 1) as nat) as int]
    }
}

/// CRC (polynomial 0x97) over the 64 bits of `v`.
pub open spec fn spec_crc97(v: u64) -> u8 {
    CRC8_LUT@[crc97_index(v, 8) as int]
}

proof fn lemma_pow256_positive(k: int)
    requires
        k >= 0,
    ensures
        pow256(k) >= 1,
    decreases k,
{
    if k > 0 {
        lemma_pow256_positive(k - 1);
    }
}

/// CRC (polynomial 0x97) over the 64 bits of the input, most significant byte first.
#[allow(non_snake_case)]
pub fn CRC_SPI_97_64bit(dw_InputData: u64) -> (r: u8)
    ensures
        r == spec_crc97(dw_InputData),
{
    proof {
        reveal_with_fuel(pow256, 8);
    }
    let mut div: u64 = 0x100_0000_0000_0000;
    let mut b_index: u8 = (dw_InputData / div) as u8;
    let mut k: u64 = 1;
    while k < 8
        invariant
            1 <= k <= 8,
            div as int == pow256(8 - k),
            b_index == crc97_index(dw_InputData, k as nat),
        decreases 8 - k,
    {
        proof {
            lemma_pow256_positive(7 - k as int);
        }
        div = div / 256;
        let b_crc: u8 = ((dw_InputData / div) % 256) as u8;
        b_index = b_crc ^ CRC8_LUT[b_index as usize];
        k = k + 1;
    }
    CRC8_LUT[b_index as usize]
}

/// The 32-bit word read from the ring encoder, most significant byte first.
pub open spec fn be_u32_word(b: Seq<u8>) -> int {
    b[0] * 0x100_0000 + b[1] * 0x1_0000 + b[2] * 0x100 + b[3]
}

/// Decoding of a ring encoder (RLS Aksim-2) word: bits 31-13 the position, bit 9 low on
/// error, bits 7-0 the inverted CRC of bits 31-8.
pub open spec fn spec_aksim_decode(w: int) -> Result<u32, IOError> {
    if (w / 512) % 2 == 0 {
        Err(IOError::InvalidData)
    } else if (255 - spec_crc97((w / 256) as u64)) != w % 256 {
        Err(IOError::InvalidData)
    } else {
        Ok((w / 8192) as u32)
    }
}

/// Decodes the four bytes read from the ring encoder into its 19-bit position count.
pub fn aksim_decode(data_read: [u8; 4]) -> (r: Result<u32, IOError>)
    ensures
        r == spec_aksim_decode(be_u32_word(data_read@)),
        r matches Ok(p) ==> p < 0x8_0000,
{
    let encoder_data: u64 = (data_read[0] as u64) * 0x100_0000 + (data_read[1] as u64) * 0x1_0000
        + (data_read[2] as u64) * 0x100 + (data_read[3] as u64);
    assert(encoder_data == be_u32_word(data_read@));
    let encoder_position: u32 = (encoder_data / 8192) as u32;
    let error: bool = (encoder_data / 512) % 2 != 1;
    if error {
        Err(IOError::InvalidData)
    } else {
        let crc: u8 = (encoder_data % 256) as u8;
        let datapacket: u64 = encoder_data / 256;
        let c = CRC_SPI_97_64bit(datapacket);
        let calculated_crc = 255 - c;
        if calculated_crc != crc {
            Err(IOError::InvalidData)
        } else {
            Ok(encoder_position)
        }
    }
}

/// A ring encoder word with the error bit high and a correct inverted CRC yields its
/// position.
pub proof fn law_aksim_valid_word(position: u32, flags: u8)
    requires
        position < 0x8_0000,
        flags < 32,
        (flags / 2) % 2 == 1,
    ensures
        ({
            let upper = position * 8192 + (flags as int) * 256;
            let w = upper + (255 - spec_crc97((upper / 256) as u64));
            spec_aksim_decode(w) == Ok::<u32, IOError>(position)
        }),
{
    let upper = position * 8192 + (flags as int) * 256;
    let c = spec_crc97((upper / 256) as u64);
    let w = upper + (255 - c);
    assert(0 <= 255 - c < 256);
    assert(w / 256 == upper / 256 && w % 256 == 255 - c) by (nonlinear_arith)
        requires
            upper % 256 == 0,
            0 <= 255 - c < 256,
            w == upper + (255 - c),
            upper >= 0,
    {
    }
    assert(upper % 256 == 0) by (nonlinear_arith)
        requires
            upper == position * 8192 + (flags as int) * 256,
    {
    }
    assert((w / 512) % 2 == 1 && w / 8192 == position) by (nonlinear_arith)
        requires
            w == position * 8192 + flags * 256 + (255 - c),
            0 <= 255 - c < 256,
            0 <= flags < 32,
            flags % 4 >= 2,
            position >= 0,
    {
    }
}

/// Decoding of a centre encoder (AD5047) answer: a 16-bit word whose number of raised
/// bits must be even; the angle count is its low 14 bits.
pub open spec fn spec_ad5047_decode(w: u16) -> Result<u16, IOError> {
    if ones(w, 16) % 2 != 0 {
        Err(IOError::InvalidData)
    } else {
        Ok(w % 0x4000)
    }
}

/// Decodes the two bytes answered by the centre encoder into its 14-bit angle count.
pub fn ad5047_decode(data_read: [u8; 2]) -> (r: Result<u16, IOError>)
    ensures
        r == spec_ad5047_decode((data_read@[0] * 256 + data_read@[1]) as u16),
        r matches Ok(v) ==> v < 0x4000,
{
    let hi: u8 = data_read[0];
    let lo: u8 = data_read[1];
    let combined_value: u16 = (hi as u16) * 256 + (lo as u16);
    if (count_ones(combined_value) % 2) != 0 {
        return Err(IOError::InvalidData);
    }
    Ok(combined_value % 0x4000)
}

/// The word of the sixteen hall inputs: the inputs of the first expander in the low
/// byte, those of the second in the high byte.
pub fn hall_inputs_word(inputs_a: u8, inputs_b: u8) -> (r: u16)
    ensures
        r == inputs_a + 256 * inputs_b,
{
    inputs_a as u16 + 256 * (inputs_b as u16)
}

/// Shortest signed step from hall position `hall_b` to `hall_a` on a ring of 16.
pub open spec fn spec_hall_diff(hall_a: u8, hall_b: u8) -> int {
    let d = hall_a - hall_b;
    if d >= 0 {
        if d >= 8 {
            d - 16
        } else {
            d
        }
    } else if d >= -8 {
        d
    } else {
        d + 16
    }
}

/// Shortest signed step between two hall positions (16 positions per turn).
pub fn hall_diff(hall_a: u8, hall_b: u8) -> (r: i16)
    ensures
        r == spec_hall_diff(hall_a, hall_b),
{
    let d: i16 = hall_a as i16 - hall_b as i16;
    if d >= 0 {
        if d >= 8 {
            d - 16
        } else {
            d
        }
    } else if d >= -8 {
        d
    } else {
        d + 16
    }
}

/// For positions on the ring, the shortest step lies in `-8 ..= 7` and leads from
/// `hall_b` to `hall_a` modulo 16.
pub proof fn law_hall_diff_shortest(hall_a: u8, hall_b: u8)
    requires
        hall_a < 16,
        hall_b < 16,
    ensures
        -8 <= spec_hall_diff(hall_a, hall_b) <= 7,
        (hall_b + spec_hall_diff(hall_a, hall_b)) % 16 == hall_a as int,
{
}

} // verus!
