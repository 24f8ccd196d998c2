use vstd::prelude::*;

use crate::motor_control::Pid;

verus! {

/// Why a register payload could not be decoded.
#[derive(Debug, Clone, Copy, PartialEq, Eq, Structural)]
pub enum ConversionError {
    InvalidDataLength,
    NanReceived,
}

// ---------------------------------------------------------------------------
// Little-endian model of the fixed-width integers
// ---------------------------------------------------------------------------

/// The two little-endian bytes of `v`.
pub open spec fn le_u16_bytes(v: u16) -> Seq<u8> {
    seq![(v % 256) as u8, (v / 256) as u8]
}

/// The `u16` whose little-endian bytes start at `s[off]`.
pub open spec fn le_u16_value(s: Seq<u8>, off: int) -> u16 {
    (s[off] + 256 * s[off + 1]) as u16
}

/// The four little-endian bytes of `v`.
pub open spec fn le_u32_bytes(v: u32) -> Seq<u8> {
    seq![
        (v % 256) as u8,
        ((v / 0x100) % 256) as u8,
        ((v / 0x1_0000) % 256) as u8,
        (v / 0x100_0000) as u8,
    ]
}

/// The `u32` whose little-endian bytes start at `s[off]`.
pub open spec fn le_u32_value(s: Seq<u8>, off: int) -> u32 {
    (s[off] + 0x100 * s[off + 1] + 0x1_0000 * s[off + 2] + 0x100_0000 * s[off + 3]) as u32
}

/// Two's complement bit pattern of a 16-bit signed value.
pub open spec fn i16_bits(v: i16) -> u16 {
    if v >= 0 {
        v as u16
    } else {
        (v + 0x1_0000) as u16
    }
}

/// Signed value of a 16-bit two's complement bit pattern.
pub open spec fn i16_of_bits(u: u16) -> i16 {
    if u < 0x8000 {
        u as i16
    } else {
        (u - 0x1_0000) as i16
    }
}

/// Concatenated little-endian encoding of a sequence of `u32`.
pub open spec fn u32s_le_bytes(v: Seq<u32>) -> Seq<u8> {
    Seq::new(4 * v.len(), |k: int| le_u32_bytes(v[k / 4])[k % 4])
}

/// Concatenated little-endian encoding of a sequence of `u16`.
pub open spec fn u16s_le_bytes(v: Seq<u16>) -> Seq<u8> {
    Seq::new(2 * v.len(), |k: int| le_u16_bytes(v[k / 2])[k % 2])
}

/// Concatenated little-endian encoding of a sequence of `i16`.
pub open spec fn i16s_le_bytes(v: Seq<i16>) -> Seq<u8> {
    Seq::new(2 * v.len(), |k: int| le_u16_bytes(i16_bits(v[k / 2]))[k % 2])
}

/// One byte per flag: 1 for `true`, 0 for `false`.
pub open spec fn bool_byte(b: bool) -> u8 {
    if b {
        1
    } else {
        0
    }
}

/// The 32-bit word that carries a pair of gains: `p` in the upper half and `i` in the
/// lower half; a negative `i` is sign-extended over the upper half.
pub open spec fn pid_word(pid: Pid) -> u32 {
    if pid.i >= 0 {
        (i16_bits(pid.p) * 0x1_0000 + pid.i) as u32
    } else {
        (0xFFFF_0000 + i16_bits(pid.i)) as u32
    }
}

/// Gains read back from a 32-bit word: each half with its top bit cleared.
pub open spec fn pid_of_word(w: u32) -> Pid {
    Pid { p: ((w / 0x1_0000) % 0x8000) as i16, i: (w % 0x8000) as i16 }
}

// ---------------------------------------------------------------------------
// Executable helpers
// ---------------------------------------------------------------------------

fn push_u32_le(out: &mut Vec<u8>, v: u32)
    ensures
        final(out)@ == old(out)@ + le_u32_bytes(v),
{
    out.push((v % 256) as u8);
    out.push(((v / 0x100) % 256) as u8);
    out.push(((v / 0x1_0000) % 256) as u8);
    out.push((v / 0x100_0000) as u8);
    assert(out@ =~= old(out)@ + le_u32_bytes(v));
}

fn push_u16_le(out: &mut Vec<u8>, v: u16)
    ensures
        final(out)@ == old(out)@ + le_u16_bytes(v),
{
    out.push((v % 256) as u8);
    out.push((v / 256) as u8);
    assert(out@ =~= old(out)@ + le_u16_bytes(v));
}

/// Writes the little-endian bytes of `v` at `w[off..off + 4]`.
pub fn put_u32_le(w: &mut [u8], off: usize, v: u32)
    requires
        off + 4 <= old(w)@.len(),
    ensures
        final(w)@ == old(w)@.update(off as int, le_u32_bytes(v)[0]).update(
            off + 1,
            le_u32_bytes(v)[1],
        ).update(off + 2, le_u32_bytes(v)[2]).update(off + 3, le_u32_bytes(v)[3]),
{
    w[off] = (v % 256) as u8;
    w[off + 1] = ((v / 0x100) % 256) as u8;
    w[off + 2] = ((v / 0x1_0000) % 256) as u8;
    w[off + 3] = (v / 0x100_0000) as u8;
}

/// Reads the little-endian `u32` at `data[off..off + 4]`.
pub fn read_u32_le(data: &[u8], off: usize) -> (r: u32)
    requires
        off + 4 <= data@.len(),
    ensures
        r == le_u32_value(data@, off as int),
{
    data[off] as u32 + 0x100 * (data[off + 1] as u32) + 0x1_0000 * (data[off + 2] as u32)
        + 0x100_0000 * (data[off + 3] as u32)
}

/// Reads the little-endian `u16` at `data[off..off + 2]`.
pub fn read_u16_le(data: &[u8], off: usize) -> (r: u16)
    requires
        off + 2 <= data@.len(),
    ensures
        r == le_u16_value(data@, off as int),
{
    data[off] as u16 + 256 * (data[off + 1] as u16)
}

pub(crate) fn i16_to_bits(v: i16) -> (r: u16)
    ensures
        r == i16_bits(v),
{
    if v >= 0 {
        v as u16
    } else {
        (v as i32 + 0x1_0000) as u16
    }
}

pub(crate) fn bits_to_i16(u: u16) -> (r: i16)
    ensures
        r == i16_of_bits(u),
{
    if u < 0x8000 {
        u as i16
    } else {
        (u as i32 - 0x1_0000) as i16
    }
}

proof fn lemma_u32s_le_bytes_push(v: Seq<u32>, x: u32)
    ensures
        u32s_le_bytes(v.push(x)) =~= u32s_le_bytes(v) + le_u32_bytes(x),
{
    let l = u32s_le_bytes(v.push(x));
    let r = u32s_le_bytes(v) + le_u32_bytes(x);
    assert forall|k: int| 0 <= k < l.len() implies l[k] == r[k] by {
        if k >= 4 * v.len() {
            assert(k / 4 == v.len());
            assert(k % 4 == k - 4 * v.len());
        } else {
            assert(k / 4 < v.len());
        }
    }
}

proof fn lemma_u16s_le_bytes_push(v: Seq<u16>, x: u16)
    ensures
        u16s_le_bytes(v.push(x)) =~= u16s_le_bytes(v) + le_u16_bytes(x),
{
    let l = u16s_le_bytes(v.push(x));
    let r = u16s_le_bytes(v) + le_u16_bytes(x);
    assert forall|k: int| 0 <= k < l.len() implies l[k] == r[k] by {
        if k >= 2 * v.len() {
            assert(k / 2 == v.len());
            assert(k % 2 == k - 2 * v.len());
        } else {
            assert(k / 2 < v.len());
        }
    }
}

proof fn lemma_i16s_le_bytes_push(v: Seq<i16>, x: i16)
    ensures
        i16s_le_bytes(v.push(x)) =~= i16s_le_bytes(v) + le_u16_bytes(i16_bits(x)),
{
    let l = i16s_le_bytes(v.push(x));
    let r = i16s_le_bytes(v) + le_u16_bytes(i16_bits(x));
    assert forall|k: int| 0 <= k < l.len() implies l[k] == r[k] by {
        if k >= 2 * v.len() {
            assert(k / 2 == v.len());
            assert(k % 2 == k - 2 * v.len());
        } else {
            assert(k / 2 < v.len());
        }
    }
}

// ---------------------------------------------------------------------------
// Public conversions
// ---------------------------------------------------------------------------

/// Decodes one flag per byte: a flag is set exactly when its byte is non-zero.
pub fn bytes_to_bool<const N: usize>(data: &[u8]) -> (res: Result<[bool; N], ConversionError>)
    ensures
        data@.len() != N ==> res == Err::<[bool; N], ConversionError>(
            ConversionError::InvalidDataLength,
        ),
        data@.len() == N ==> res is Ok,
        res matches Ok(r) ==> forall|i: int| 0 <= i < N ==> r[i] == (data@[i] != 0),
{
    if data.len() != N {
        return Err(ConversionError::InvalidDataLength);
    }
    let mut result = [false; N];
    let mut i: usize = 0;
    while i < N
        invariant
            i <= N,
            data@.len() == N,
            forall|j: int| 0 <= j < i ==> result[j] == (data@[j] != 0),
        decreases N - i,
    {
        result[i] = data[i] != 0;
        i = i + 1;
    }
    Ok(result)
}

/// Encodes one byte per flag: 1 for a set flag, 0 otherwise.
pub fn bool_to_bytes<const N: usize>(data: [bool; N]) -> (res: [u8; N])
    ensures
        forall|i: int| 0 <= i < N ==> res[i] == bool_byte(data[i]),
{
    let mut result = [0u8; N];
    let mut i: usize = 0;
    while i < N
        invariant
            i <= N,
            forall|j: int| 0 <= j < i ==> result[j] == bool_byte(data[j]),
        decreases N - i,
    {
        result[i] = if data[i] {
            1
        } else {
            0
        };
        i = i + 1;
    }
    result
}

/// Concatenated little-endian encoding of the values.
pub fn u32_to_bytes<const N: usize>(data: [u32; N]) -> (res: Vec<u8>)
    ensures
        res@ == u32s_le_bytes(data@),
{
    let mut result: Vec<u8> = Vec::new();
    let mut i: usize = 0;
    while i < N
        invariant
            i <= N,
            data@.len() == N,
            result@ == u32s_le_bytes(data@.take(i as int)),
        decreases N - i,
    {
        proof {
            lemma_u32s_le_bytes_push(data@.take(i as int), data[i as int]);
            assert(data@.take(i as int).push(data[i as int]) =~= data@.take(i + 1));
        }
        push_u32_le(&mut result, data[i]);
        i = i + 1;
    }
    assert(data@.take(N as int) =~= data@);
    result
}

/// Decodes `N` little-endian `u32`; the payload must be exactly `4 * N` bytes long.
pub fn bytes_to_u32<const N: usize>(data: &[u8]) -> (res: Result<[u32; N], ConversionError>)
    ensures
        data@.len() != 4 * N ==> res == Err::<[u32; N], ConversionError>(
            ConversionError::InvalidDataLength,
        ),
        data@.len() == 4 * N ==> res is Ok,
        res matches Ok(r) ==> forall|i: int| 0 <= i < N ==> r[i] == le_u32_value(data@, 4 * i),
{
    let len = data.len();
    if N > usize::MAX / 4 || len != N * 4 {
        return Err(ConversionError::InvalidDataLength);
    }
    let mut result = [0u32; N];
    let mut i: usize = 0;
    while i < N
        invariant
            i <= N,
            N <= usize::MAX / 4,
            data@.len() == 4 * N,
            forall|j: int| 0 <= j < i ==> result[j] == le_u32_value(data@, 4 * j),
        decreases N - i,
    {
        result[i] = read_u32_le(data, 4 * i);
        i = i + 1;
    }
    Ok(result)
}

/// An IEEE-754 single precision bit pattern that encodes a NaN: all exponent bits set
/// and a non-zero fraction.
pub open spec fn is_nan_bits(w: u32) -> bool {
    (w / 0x80_0000) % 0x100 == 0xFF && w % 0x80_0000 != 0
}

pub(crate) fn nan_bits(w: u32) -> (r: bool)
    ensures
        r == is_nan_bits(w),
{
    (w / 0x80_0000) % 0x100 == 0xFF && w % 0x80_0000 != 0
}

/// Decodes `N` little-endian single precision floats, each kept as its bit pattern; the
/// payload must be exactly `4 * N` bytes long and no value may be a NaN.
pub fn bytes_to_float_bits<const N: usize>(data: &[u8]) -> (res: Result<
    [u32; N],
    ConversionError,
>)
    ensures
        data@.len() != 4 * N ==> res == Err::<[u32; N], ConversionError>(
            ConversionError::InvalidDataLength,
        ),
        data@.len() == 4 * N ==> (res is Err <==> exists|i: int|
            0 <= i < N && #[trigger] is_nan_bits(le_u32_value(data@, 4 * i))),
        data@.len() == 4 * N && res is Err ==> res == Err::<[u32; N], ConversionError>(
            ConversionError::NanReceived,
        ),
        res matches Ok(r) ==> forall|i: int| 0 <= i < N ==> r[i] == le_u32_value(data@, 4 * i),
{
    let values = match bytes_to_u32::<N>(data) {
        Ok(v) => v,
        Err(e) => {
            return Err(e);
        },
    };
    let mut i: usize = 0;
    while i < N
        invariant
            i <= N,
            data@.len() == 4 * N,
            forall|j: int| 0 <= j < N ==> values[j] == le_u32_value(data@, 4 * j),
            forall|j: int| 0 <= j < i ==> !is_nan_bits(#[trigger] le_u32_value(data@, 4 * j)),
        decreases N - i,
    {
        if nan_bits(values[i]) {
            return Err(ConversionError::NanReceived);
        }
        i = i + 1;
    }
    Ok(values)
}

/// Concatenated little-endian encoding of the values.
pub fn u16_to_bytes<const N: usize>(data: [u16; N]) -> (res: Vec<u8>)
    ensures
        res@ == u16s_le_bytes(data@),
{
    let mut result: Vec<u8> = Vec::new();
    let mut i: usize = 0;
    while i < N
        invariant
            i <= N,
            data@.len() == N,
            result@ == u16s_le_bytes(data@.take(i as int)),
        decreases N - i,
    {
        proof {
            lemma_u16s_le_bytes_push(data@.take(i as int), data[i as int]);
            assert(data@.take(i as int).push(data[i as int]) =~= data@.take(i + 1));
        }
        push_u16_le(&mut result, data[i]);
        i = i + 1;
    }
    assert(data@.take(N as int) =~= data@);
    result
}

/// Decodes `N` little-endian `u16`; the payload must be exactly `2 * N` bytes long.
pub fn bytes_to_u16<const N: usize>(data: &[u8]) -> (res: Result<[u16; N], ConversionError>)
    ensures
        data@.len() != 2 * N ==> res == Err::<[u16; N], ConversionError>(
            ConversionError::InvalidDataLength,
        ),
        data@.len() == 2 * N ==> res is Ok,
        res matches Ok(r) ==> forall|i: int| 0 <= i < N ==> r[i] == le_u16_value(data@, 2 * i),
{
    let len = data.len();
    if N > usize::MAX / 2 || len != N * 2 {
        return Err(ConversionError::InvalidDataLength);
    }
    let mut result = [0u16; N];
    let mut i: usize = 0;
    while i < N
        invariant
            i <= N,
            N <= usize::MAX / 2,
            data@.len() == 2 * N,
            forall|j: int| 0 <= j < i ==> result[j] == le_u16_value(data@, 2 * j),
        decreases N - i,
    {
        result[i] = read_u16_le(data, 2 * i);
        i = i + 1;
    }
    Ok(result)
}

/// Concatenated little-endian two's complement encoding of the values.
pub fn i16_to_bytes<const N: usize>(data: [i16; N]) -> (res: Vec<u8>)
    ensures
        res@ == i16s_le_bytes(data@),
{
    let mut result: Vec<u8> = Vec::new();
    let mut i: usize = 0;
    while i < N
        invariant
            i <= N,
            data@.len() == N,
            result@ == i16s_le_bytes(data@.take(i as int)),
        decreases N - i,
    {
        proof {
            lemma_i16s_le_bytes_push(data@.take(i as int), data[i as int]);
            assert(data@.take(i as int).push(data[i as int]) =~= data@.take(i + 1));
        }
        let bits = i16_to_bits(data[i]);
        push_u16_le(&mut result, bits);
        i = i + 1;
    }
    assert(data@.take(N as int) =~= data@);
    result
}

/// Decodes `N` little-endian two's complement `i16`; the payload must be exactly
/// `2 * N` bytes long.
pub fn bytes_to_i16<const N: usize>(data: &[u8]) -> (res: Result<[i16; N], ConversionError>)
    ensures
        data@.len() != 2 * N ==> res == Err::<[i16; N], ConversionError>(
            ConversionError::InvalidDataLength,
        ),
        data@.len() == 2 * N ==> res is Ok,
        res matches Ok(r) ==> forall|i: int|
            0 <= i < N ==> r[i] == i16_of_bits(le_u16_value(data@, 2 * i)),
{
    let len = data.len();
    if N > usize::MAX / 2 || len != N * 2 {
        return Err(ConversionError::InvalidDataLength);
    }
    let mut result = [0i16; N];
    let mut i: usize = 0;
    while i < N
        invariant
            i <= N,
            N <= usize::MAX / 2,
            data@.len() == 2 * N,
            forall|j: int| 0 <= j < i ==> result[j] == i16_of_bits(le_u16_value(data@, 2 * j)),
        decreases N - i,
    {
        let bits = read_u16_le(data, 2 * i);
        result[i] = bits_to_i16(bits);
        i = i + 1;
    }
    Ok(result)
}

pub(crate) fn pid_to_word(pid: Pid) -> (w: u32)
    ensures
        w == pid_word(pid),
{
    let p = pid.p;
    let i = pid.i;
    let w = (p as u32) << 16u32 | (i as u32);
    assert(((p as u32) << 16u32 | (i as u32)) == (if i >= 0 {
        (if p >= 0 { p as int } else { p + 0x1_0000 }) * 0x1_0000 + i
    } else {
        0xFFFF_0000 + (i + 0x1_0000)
    })) by (bit_vector);
    w
}

/// Encodes each pair of gains as the little-endian bytes of its 32-bit word.
pub fn pid_to_bytes<const N: usize>(pid: [Pid; N]) -> (res: Vec<u8>)
    ensures
        res@ == u32s_le_bytes(pid@.map_values(|g: Pid| pid_word(g))),
{
    let ghost words = pid@.map_values(|g: Pid| pid_word(g));
    let mut result: Vec<u8> = Vec::new();
    let mut i: usize = 0;
    while i < N
        invariant
            i <= N,
            pid@.len() == N,
            words == pid@.map_values(|g: Pid| pid_word(g)),
            result@ == u32s_le_bytes(words.take(i as int)),
        decreases N - i,
    {
        let w = pid_to_word(pid[i]);
        proof {
            lemma_u32s_le_bytes_push(words.take(i as int), w);
            assert(words.take(i as int).push(w) =~= words.take(i + 1));
        }
        push_u32_le(&mut result, w);
        i = i + 1;
    }
    assert(words.take(N as int) =~= words);
    result
}

/// Decodes `N` pairs of gains from `4 * N` bytes; each gain keeps 15 bits.
pub fn bytes_to_pid<const N: usize>(data: &[u8]) -> (res: Result<[Pid; N], ConversionError>)
    ensures
        data@.len() != 4 * N ==> res == Err::<[Pid; N], ConversionError>(
            ConversionError::InvalidDataLength,
        ),
        data@.len() == 4 * N ==> res is Ok,
        res matches Ok(r) ==> forall|i: int|
            0 <= i < N ==> r[i] == pid_of_word(le_u32_value(data@, 4 * i)),
{
    let len = data.len();
    if N > usize::MAX / 4 || len != N * 4 {
        return Err(ConversionError::InvalidDataLength);
    }
    let mut result = [Pid { p: 0, i: 0 }; N];
    let mut i: usize = 0;
    while i < N
        invariant
            i <= N,
            N <= usize::MAX / 4,
            data@.len() == 4 * N,
            forall|j: int| 0 <= j < i ==> result[j] == pid_of_word(le_u32_value(data@, 4 * j)),
        decreases N - i,
    {
        let raw = read_u32_le(data, 4 * i);
        let p = ((raw / 0x1_0000) % 0x8000) as i16;
        let ki = (raw % 0x8000) as i16;
        result[i] = Pid { p, i: ki };
        i = i + 1;
    }
    Ok(result)
}


// ---------------------------------------------------------------------------
// Laws: decoding what was encoded gives the values back, and encoding what was
// decoded gives the bytes back.
// ---------------------------------------------------------------------------

pub(crate) proof fn lemma_u32_word(v: u32)
    ensures
        le_u32_value(le_u32_bytes(v), 0) == v,
{
    let b = le_u32_bytes(v);
    assert(v % 256 + 0x100 * ((v / 0x100) % 256) + 0x1_0000 * ((v / 0x1_0000) % 256) + 0x100_0000
        * (v / 0x100_0000) == v) by (bit_vector);
    assert(v / 0x100_0000 < 256) by (bit_vector);
    assert(b[0] == v % 256);
    assert(b[1] == (v / 0x100) % 256);
    assert(b[2] == (v / 0x1_0000) % 256);
    assert(b[3] == v / 0x100_0000);
}

proof fn lemma_u32_bytes(b0: u8, b1: u8, b2: u8, b3: u8)
    ensures
        le_u32_bytes(le_u32_value(seq![b0, b1, b2, b3], 0)) =~= seq![b0, b1, b2, b3],
{
    let s = seq![b0, b1, b2, b3];
    assert(s[0] == b0 && s[1] == b1 && s[2] == b2 && s[3] == b3);
    let v: u32 = le_u32_value(s, 0);
    assert(b0 + 0x100 * b1 + 0x1_0000 * b2 + 0x100_0000 * b3 <= 0xFFFF_FFFF) by (bit_vector);
    assert(v == b0 + 0x100 * b1 + 0x1_0000 * b2 + 0x100_0000 * b3);
    assert({
        let w = b0 + 0x100 * b1 + 0x1_0000 * b2 + 0x100_0000 * b3;
        &&& w % 256 == b0
        &&& (w / 0x100) % 256 == b1
        &&& (w / 0x1_0000) % 256 == b2
        &&& w / 0x100_0000 == b3
    }) by (bit_vector);
}

proof fn lemma_u16_word(v: u16)
    ensures
        le_u16_value(le_u16_bytes(v), 0) == v,
{
    assert(v % 256 + 256 * (v / 256) == v) by (bit_vector);
    assert(v / 256 < 256) by (bit_vector);
}

proof fn lemma_u16_bytes(b0: u8, b1: u8)
    ensures
        le_u16_bytes(le_u16_value(seq![b0, b1], 0)) =~= seq![b0, b1],
{
    let s = seq![b0, b1];
    assert(s[0] == b0 && s[1] == b1);
    assert({
        let w = b0 + 256 * b1;
        &&& w <= 0xFFFF
        &&& w % 256 == b0
        &&& w / 256 == b1
    }) by (bit_vector);
}

/// Decoding the little-endian encoding of `u32` values gives the values back.
pub proof fn law_u32_roundtrip(v: Seq<u32>)
    ensures
        forall|i: int| 0 <= i < v.len() ==> le_u32_value(u32s_le_bytes(v), 4 * i) == #[trigger] v[i],
{
    assert forall|i: int| 0 <= i < v.len() implies le_u32_value(u32s_le_bytes(v), 4 * i)
        == #[trigger] v[i] by {
        let e = u32s_le_bytes(v);
        lemma_u32_word(v[i]);
        assert((4 * i) / 4 == i && (4 * i) % 4 == 0);
        assert((4 * i + 1) / 4 == i && (4 * i + 1) % 4 == 1);
        assert((4 * i + 2) / 4 == i && (4 * i + 2) % 4 == 2);
        assert((4 * i + 3) / 4 == i && (4 * i + 3) % 4 == 3);
        assert(e[4 * i] == le_u32_bytes(v[i])[0]);
        assert(e[4 * i + 1] == le_u32_bytes(v[i])[1]);
        assert(e[4 * i + 2] == le_u32_bytes(v[i])[2]);
        assert(e[4 * i + 3] == le_u32_bytes(v[i])[3]);
    }
}

/// Encoding the `u32` values decoded from a payload of `4 * n` bytes gives the payload back.
pub proof fn law_u32_bytes_roundtrip(data: Seq<u8>, n: nat)
    requires
        data.len() == 4 * n,
    ensures
        u32s_le_bytes(Seq::new(n, |i: int| le_u32_value(data, 4 * i))) =~= data,
{
    let v = Seq::new(n, |i: int| le_u32_value(data, 4 * i));
    let e = u32s_le_bytes(v);
    assert forall|k: int| 0 <= k < data.len() implies e[k] == data[k] by {
        let i = k / 4;
        let j = k % 4;
        assert(0 <= i < n);
        assert(k == 4 * i + j);
        lemma_u32_bytes(data[4 * i], data[4 * i + 1], data[4 * i + 2], data[4 * i + 3]);
        let s = seq![data[4 * i], data[4 * i + 1], data[4 * i + 2], data[4 * i + 3]];
        assert(le_u32_value(s, 0) == le_u32_value(data, 4 * i));
        assert(v[i] == le_u32_value(data, 4 * i));
        assert(e[k] == le_u32_bytes(v[i])[j]);
        assert(s[j] == data[k]);
    }
}

/// Decoding the little-endian encoding of `u16` values gives the values back.
pub proof fn law_u16_roundtrip(v: Seq<u16>)
    ensures
        forall|i: int| 0 <= i < v.len() ==> le_u16_value(u16s_le_bytes(v), 2 * i) == #[trigger] v[i],
{
    assert forall|i: int| 0 <= i < v.len() implies le_u16_value(u16s_le_bytes(v), 2 * i)
        == #[trigger] v[i] by {
        let e = u16s_le_bytes(v);
        lemma_u16_word(v[i]);
        assert((2 * i) / 2 == i && (2 * i) % 2 == 0);
        assert((2 * i + 1) / 2 == i && (2 * i + 1) % 2 == 1);
        assert(e[2 * i] == le_u16_bytes(v[i])[0]);
        assert(e[2 * i + 1] == le_u16_bytes(v[i])[1]);
    }
}

/// Encoding the `u16` values decoded from a payload of `2 * n` bytes gives the payload back.
pub proof fn law_u16_bytes_roundtrip(data: Seq<u8>, n: nat)
    requires
        data.len() == 2 * n,
    ensures
        u16s_le_bytes(Seq::new(n, |i: int| le_u16_value(data, 2 * i))) =~= data,
{
    let v = Seq::new(n, |i: int| le_u16_value(data, 2 * i));
    let e = u16s_le_bytes(v);
    assert forall|k: int| 0 <= k < data.len() implies e[k] == data[k] by {
        let i = k / 2;
        let j = k % 2;
        assert(0 <= i < n);
        assert(k == 2 * i + j);
        lemma_u16_bytes(data[2 * i], data[2 * i + 1]);
        let s = seq![data[2 * i], data[2 * i + 1]];
        assert(le_u16_value(s, 0) == le_u16_value(data, 2 * i));
        assert(e[k] == le_u16_bytes(v[i])[j]);
        assert(s[j] == data[k]);
    }
}

/// Re-encoding decoded two's complement values gives back the bytes they came from.
pub proof fn law_i16_bytes_roundtrip(data: Seq<u8>, n: nat)
    requires
        data.len() == 2 * n,
    ensures
        i16s_le_bytes(Seq::new(n, |i: int| i16_of_bits(le_u16_value(data, 2 * i)))) =~= data,
{
    let v = Seq::new(n, |i: int| i16_of_bits(le_u16_value(data, 2 * i)));
    let e = i16s_le_bytes(v);
    assert forall|k: int| 0 <= k < data.len() implies e[k] == data[k] by {
        let i = k / 2;
        let j = k % 2;
        assert(0 <= i < n);
        assert(k == 2 * i + j);
        lemma_u16_bytes(data[2 * i], data[2 * i + 1]);
        let s = seq![data[2 * i], data[2 * i + 1]];
        assert(le_u16_value(s, 0) == le_u16_value(data, 2 * i));
        assert(i16_bits(v[i]) == le_u16_value(data, 2 * i));
        assert(e[k] == le_u16_bytes(i16_bits(v[i]))[j]);
        assert(s[j] == data[k]);
    }
}

/// A 16-bit signed value and its two's complement bit pattern determine each other.
pub proof fn law_i16_bits_roundtrip(v: i16, u: u16)
    ensures
        i16_of_bits(i16_bits(v)) == v,
        i16_bits(i16_of_bits(u)) == u,
{
}

/// Decoding the encoding of `i16` values gives the values back.
pub proof fn law_i16_roundtrip(v: Seq<i16>)
    ensures
        forall|i: int|
            0 <= i < v.len() ==> i16_of_bits(le_u16_value(i16s_le_bytes(v), 2 * i)) == #[trigger] v[i],
{
    assert forall|i: int| 0 <= i < v.len() implies i16_of_bits(
        le_u16_value(i16s_le_bytes(v), 2 * i),
    ) == #[trigger] v[i] by {
        let e = i16s_le_bytes(v);
        lemma_u16_word(i16_bits(v[i]));
        assert((2 * i) / 2 == i && (2 * i) % 2 == 0);
        assert((2 * i + 1) / 2 == i && (2 * i + 1) % 2 == 1);
        assert(e[2 * i] == le_u16_bytes(i16_bits(v[i]))[0]);
        assert(e[2 * i + 1] == le_u16_bytes(i16_bits(v[i]))[1]);
    }
}

/// Decoding the byte encoding of flags gives the flags back.
pub proof fn law_bool_roundtrip(b: bool)
    ensures
        (bool_byte(b) != 0) == b,
{
}

/// Gains that fit in 15 bits survive encoding and decoding; a negative gain does not.
pub proof fn law_pid_roundtrip(pid: Pid)
    requires
        pid.p >= 0,
        pid.i >= 0,
    ensures
        pid_of_word(le_u32_value(le_u32_bytes(pid_word(pid)), 0)) == pid,
{
    lemma_u32_word(pid_word(pid));
    let p = pid.p;
    let i = pid.i;
    assert(((p * 0x1_0000 + i) / 0x1_0000) % 0x8000 == p && (p * 0x1_0000 + i) % 0x8000 == i)
        by (nonlinear_arith)
        requires
            0 <= p < 0x8000,
            0 <= i < 0x8000,
    ;
}

} // verus!
