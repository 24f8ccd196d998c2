pub mod error;
pub mod instruction_packet;
pub mod status_packet;

use vstd::prelude::*;

pub use error::ParsingError;
pub use instruction_packet::InstructionPacketKind;
pub use status_packet::StatusPacket;

verus! {

/// Sum of the bytes of `s`.
pub open spec fn byte_sum(s: Seq<u8>) -> nat
    decreases s.len(),
{
    if s.len() == 0 {
        0
    } else {
        byte_sum(s.drop_last()) + s.last() as nat
    }
}

/// Dynamixel checksum: the bitwise complement of the byte sum taken modulo 256.
pub open spec fn checksum(s: Seq<u8>) -> u8 {
    (255 - byte_sum(s) % 256) as u8
}

/// Computes the Dynamixel checksum of `data`.
pub fn crc(data: &[u8]) -> (r: u8)
    ensures
        r == checksum(data@),
{
    let mut crc: u8 = 0;
    let mut i: usize = 0;
    while i < data.len()
        invariant
            i <= data@.len(),
            crc == byte_sum(data@.take(i as int)) % 256,
        decreases data@.len() - i,
    {
        assert(data@.take(i + 1).drop_last() =~= data@.take(i as int));
        crc = crc.wrapping_add(data[i]);
        i = i + 1;
    }
    assert(data@.take(data@.len() as int) =~= data@);
    proof {
        lemma_u8_complement(crc);
    }
    !crc
}

/// The bitwise complement of a byte is its difference to 255.
pub proof fn lemma_u8_complement(x: u8)
    by (bit_vector)
    ensures
        !x == 255 - x,
{
}

/// The byte sum of a checksummed run of bytes is 255 modulo 256, whatever the bytes.
pub proof fn law_checksum_completes_sum(s: Seq<u8>)
    ensures
        byte_sum(s.push(checksum(s))) % 256 == 255,
{
    assert(s.push(checksum(s)).drop_last() =~= s);
}

} // verus!
