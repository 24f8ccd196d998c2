use vstd::prelude::*;

use crate::dynamixel::conversion::{
    is_nan_bits, law_u32_roundtrip, le_u32_bytes, le_u32_value, put_u32_le, read_u32_le, u32s_le_bytes,
};

verus! {

/// Size of the record kept in flash.
pub const FLASH_DATA_LEN: usize = 32;

/// The record kept in flash: the board id and one sensor offset per axis, each offset
/// held as the bit pattern of its single precision float.
#[derive(Debug, Clone, Copy)]
pub struct FlashData {
    pub board_id: u8,
    pub sensor_offsets: [u32; 3],
}

/// The flash image of a record: the id, the three offsets in little-endian order, then
/// zeros up to 32 bytes.
pub open spec fn flash_image(board_id: u8, offsets: Seq<u32>) -> Seq<u8> {
    seq![board_id] + u32s_le_bytes(offsets) + Seq::new(19, |k: int| 0u8)
}

/// Two single precision floats compare equal: neither is a NaN and they have the same
/// bits, or both are zeros of either sign.
pub open spec fn float_bits_eq(a: u32, b: u32) -> bool {
    !is_nan_bits(a) && !is_nan_bits(b) && (a == b || (a % 0x8000_0000 == 0 && b % 0x8000_0000
        == 0))
}

/// Two records compare equal: same id and offsets that compare equal as floats.
pub open spec fn same_record(a: FlashData, b: FlashData) -> bool {
    a.board_id == b.board_id && forall|i: int|
        0 <= i < 3 ==> #[trigger] float_bits_eq(a.sensor_offsets[i], b.sensor_offsets[i])
}

fn floats_equal(a: u32, b: u32) -> (r: bool)
    ensures
        r == float_bits_eq(a, b),
{
    assert(((a & 0x7F80_0000) == 0x7F80_0000 && (a & 0x007F_FFFF) != 0) == ((a / 0x80_0000)
        % 0x100 == 0xFF && a % 0x80_0000 != 0)) by (bit_vector);
    assert(((b & 0x7F80_0000) == 0x7F80_0000 && (b & 0x007F_FFFF) != 0) == ((b / 0x80_0000)
        % 0x100 == 0xFF && b % 0x80_0000 != 0)) by (bit_vector);
    assert(((a & 0x7FFF_FFFF) == 0) == (a % 0x8000_0000 == 0)) by (bit_vector);
    assert(((b & 0x7FFF_FFFF) == 0) == (b % 0x8000_0000 == 0)) by (bit_vector);
    let nan_a = (a & 0x7F80_0000) == 0x7F80_0000 && (a & 0x007F_FFFF) != 0;
    let nan_b = (b & 0x7F80_0000) == 0x7F80_0000 && (b & 0x007F_FFFF) != 0;
    !nan_a && !nan_b && (a == b || ((a & 0x7FFF_FFFF) == 0 && (b & 0x7FFF_FFFF) == 0))
}

impl PartialEq for FlashData {
    fn eq(&self, other: &Self) -> (r: bool) {
        let mut same = self.board_id == other.board_id;
        let mut i: usize = 0;
        while i < 3
            invariant
                i <= 3,
                same == (self.board_id == other.board_id && forall|j: int|
                    0 <= j < i ==> #[trigger] float_bits_eq(
                        self.sensor_offsets[j],
                        other.sensor_offsets[j],
                    )),
            decreases 3 - i,
        {
            let e = floats_equal(self.sensor_offsets[i], other.sensor_offsets[i]);
            proof {
                if !e {
                    assert(!float_bits_eq(self.sensor_offsets[i as int], other.sensor_offsets[i as int]));
                }
            }
            same = same && e;
            i = i + 1;
        }
        same
    }
}

impl vstd::std_specs::cmp::PartialEqSpecImpl for FlashData {
    open spec fn obeys_eq_spec() -> bool {
        true
    }

    open spec fn eq_spec(&self, other: &Self) -> bool {
        same_record(*self, *other)
    }
}

impl FlashData {
    /// The 32-byte flash image of the record.
    pub fn to_bytes(&self) -> (r: [u8; 32])
        ensures
            r@ == flash_image(self.board_id, self.sensor_offsets@),
    {
        let mut bytes = [0u8; 32];
        bytes[0] = self.board_id;
        let mut i: usize = 0;
        while i < 3
            invariant
                i <= 3,
                bytes[0] == self.board_id,
                forall|k: int| 1 + 4 * i <= k < 32 ==> bytes[k] == 0,
                forall|j: int, m: int|
                    0 <= j < i && 0 <= m < 4 ==> bytes[1 + 4 * j + m] == le_u32_bytes(
                        self.sensor_offsets[j],
                    )[m],
            decreases 3 - i,
        {
            put_u32_le(&mut bytes, 1 + 4 * i, self.sensor_offsets[i]);
            i = i + 1;
        }
        proof {
            let img = flash_image(self.board_id, self.sensor_offsets@);
            let enc = u32s_le_bytes(self.sensor_offsets@);
            assert forall|k: int| 0 <= k < 32 implies bytes@[k] == img[k] by {
                if 1 <= k < 13 {
                    let j = (k - 1) / 4;
                    let m = (k - 1) % 4;
                    assert(k == 1 + 4 * j + m);
                    assert(enc[k - 1] == le_u32_bytes(self.sensor_offsets@[j])[m]);
                }
            }
            assert(bytes@ =~= img);
        }
        bytes
    }

    /// The record held by a 32-byte flash image.
    pub fn from_bytes(bytes: [u8; 32]) -> (r: Self)
        ensures
            r.board_id == bytes[0],
            forall|i: int| 0 <= i < 3 ==> r.sensor_offsets[i] == le_u32_value(bytes@, 1 + 4 * i),
    {
        let board_id = bytes[0];
        let o0 = read_u32_le(&bytes, 1);
        let o1 = read_u32_le(&bytes, 5);
        let o2 = read_u32_le(&bytes, 9);
        let r = FlashData { board_id, sensor_offsets: [o0, o1, o2] };
        assert forall|i: int| 0 <= i < 3 implies r.sensor_offsets[i] == le_u32_value(
            bytes@,
            1 + 4 * i,
        ) by {
            if i == 0 {
            } else if i == 1 {
            } else {
            }
        }
        r
    }
}

proof fn lemma_image_offset_byte(board_id: u8, offsets: Seq<u32>, k: int)
    requires
        offsets.len() == 3,
        1 <= k < 13,
    ensures
        flash_image(board_id, offsets)[k] == u32s_le_bytes(offsets)[k - 1],
{
    let enc = u32s_le_bytes(offsets);
    let head = seq![board_id] + enc;
    assert(head[k] == enc[k - 1]);
    assert(flash_image(board_id, offsets) == head + Seq::new(19, |j: int| 0u8));
}

/// A record written as its flash image reads back as the same record, bit for bit.
pub proof fn law_flash_image_read_back(board_id: u8, offsets: Seq<u32>)
    requires
        offsets.len() == 3,
    ensures
        flash_image(board_id, offsets)[0] == board_id,
        forall|i: int|
            0 <= i < 3 ==> le_u32_value(flash_image(board_id, offsets), 1 + 4 * i) == offsets[i],
{
    let img = flash_image(board_id, offsets);
    let enc = u32s_le_bytes(offsets);
    law_u32_roundtrip(offsets);
    assert forall|i: int| 0 <= i < 3 implies le_u32_value(img, 1 + 4 * i) == offsets[i] by {
        lemma_image_offset_byte(board_id, offsets, 1 + 4 * i);
        lemma_image_offset_byte(board_id, offsets, 2 + 4 * i);
        lemma_image_offset_byte(board_id, offsets, 3 + 4 * i);
        lemma_image_offset_byte(board_id, offsets, 4 + 4 * i);
        assert(le_u32_value(enc, 4 * i) == offsets[i]);
    }
}

/// Why a write to flash is reported as failed.
#[derive(Debug, Clone, Copy, PartialEq, Eq, Structural)]
pub enum FlashCheckError {
    /// The record read back differs from the one written.
    Prog,
}

/// A lazy write goes to flash only when the stored record differs from the new one.
pub fn write_needed(stored: &FlashData, data: &FlashData) -> (r: bool)
    ensures
        r == !same_record(*stored, *data),
{
    !(*stored == *data)
}

/// A write is confirmed when the record read back equals the one written.
pub fn check_written(read_back: &FlashData, data: &FlashData) -> (r: Result<(), FlashCheckError>)
    ensures
        r is Ok <==> same_record(*read_back, *data),
        r is Err ==> r == Err::<(), FlashCheckError>(FlashCheckError::Prog),
{
    if *read_back == *data {
        Ok(())
    } else {
        Err(FlashCheckError::Prog)
    }
}

/// A record compares equal to itself exactly when none of its offsets is a NaN, so a
/// record holding a NaN is written again by every lazy write.
pub proof fn law_record_equals_itself(d: FlashData)
    ensures
        same_record(d, d) <==> forall|i: int|
            0 <= i < 3 ==> !is_nan_bits(#[trigger] d.sensor_offsets[i]),
{
    if forall|i: int| 0 <= i < 3 ==> !is_nan_bits(#[trigger] d.sensor_offsets[i]) {
        assert forall|i: int| 0 <= i < 3 implies #[trigger] float_bits_eq(
            d.sensor_offsets[i],
            d.sensor_offsets[i],
        ) by {
            assert(!is_nan_bits(d.sensor_offsets[i]));
        }
    }
    if same_record(d, d) {
        assert forall|i: int| 0 <= i < 3 implies !is_nan_bits(#[trigger] d.sensor_offsets[i]) by {
            assert(float_bits_eq(d.sensor_offsets[i], d.sensor_offsets[i]));
        }
    }
}

} // verus!
