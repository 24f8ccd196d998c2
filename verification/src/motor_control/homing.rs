use vstd::prelude::*;

use vstd::arithmetic::div_mod::lemma_div_denominator;
use vstd::arithmetic::power2::{lemma2_to64, lemma_pow2_adds, lemma_pow2_pos, lemma_pow2_unfold, pow2};
use vstd::bits::lemma_u16_shr_is_div;

use super::driver::{count_ones, ones};

verus! {

// The index search of a motor reads the word of the sixteen hall sensors of the ring:
// a detecting sensor reads 0, an idle one 1.

/// Length of the run of raised bits at the bottom of the low `n` bits of `v`.
spec fn ones_run(v: u16, n: nat) -> nat
    decreases n,
{
    if n == 0 || v % 2 == 0 {
        0
    } else {
        1 + ones_run(v / 2, (n - 1) as nat)
    }
}

/// Number of trailing raised bits of `v` (16 for a word with every bit raised).
spec fn trailing_ones(v: u16) -> nat {
    ones_run(v, 16)
}

/// The scan of the hall word: `rest` is the word shifted right by `pos`, `found` the
/// indices found so far (255 for none) and `i` their number. Each step skips the run of
/// raised bits and records the position of the lowered bit that ends it; the scan stops
/// after three steps, past the sixteenth bit, or at a lowered bit right after the
/// previous one.
spec fn index_scan(rest: u16, pos: nat, i: nat, found: Seq<u8>) -> Seq<u8>
    decreases 16 - pos,
{
    if pos >= 16 {
        found
    } else {
        let run = trailing_ones(rest);
        if run == 0 && pos > 0 {
            found
        } else {
            let found2 = if run < 16 && run + pos < 16 {
                found.update(i as int, (run + pos) as u8)
            } else {
                found
            };
            if i + 1 >= 3 || pos + run + 1 >= 16 {
                found2
            } else {
                index_scan(rest >> ((run + 1) as u16), pos + run + 1, i + 1, found2)
            }
        }
    }
}

/// Every step of the scan of `rest` shifts the word by less than its width.
spec fn index_scan_shifts_fit(rest: u16, pos: nat, i: nat) -> bool
    decreases 16 - pos,
{
    if pos >= 16 {
        true
    } else {
        let run = trailing_ones(rest);
        if run == 0 && pos > 0 {
            true
        } else {
            &&& run + 1 < 16
            &&& (i + 1 >= 3 || pos + run + 1 >= 16 || index_scan_shifts_fit(
                rest >> ((run + 1) as u16),
                pos + run + 1,
                i + 1,
            ))
        }
    }
}

/// Bit `k` of the hall word (0: the sensor detects).
pub open spec fn hall_bit(d: u16, k: nat) -> nat {
    (d as nat / pow2(k)) % 2
}

/// The first lowered bit of the hall word at or above `from`; 16 when there is none.
pub open spec fn next_lowered(d: u16, from: nat) -> nat
    decreases 16 - from,
{
    if from >= 16 {
        16
    } else if hall_bit(d, from) == 0 {
        from
    } else {
        next_lowered(d, from + 1)
    }
}

/// The indices of the detecting hall sensors read from the hall word: the positions,
/// lowest first, of its first three lowered bits, where the list ends (255 for the
/// rest) at the first lowered bit that directly follows the previous one.
pub open spec fn spec_hall_indices(d: u16) -> Seq<u8> {
    let z0 = next_lowered(d, 0);
    let z1 = next_lowered(d, z0 + 1);
    let z2 = next_lowered(d, z1 + 1);
    let has0 = z0 < 16;
    let has1 = has0 && z1 < 16 && z1 != z0 + 1;
    let has2 = has1 && z2 < 16 && z2 != z1 + 1;
    seq![
        if has0 { z0 as u8 } else { 255u8 },
        if has1 { z1 as u8 } else { 255u8 },
        if has2 { z2 as u8 } else { 255u8 },
    ]
}

/// A hall word can be scanned unless its first lowered bit is bit 15 or above (no
/// lowered bit in the fifteen low bits), or it is bit 0 with no other lowered bit: the
/// scan would then shift the word by its whole width.
pub open spec fn hall_scannable(d: u16) -> bool {
    let z0 = next_lowered(d, 0);
    z0 <= 14 && !(z0 == 0 && next_lowered(d, 1) == 16)
}

proof fn lemma_next_lowered_range(d: u16, from: nat)
    ensures
        from <= 16 ==> from <= next_lowered(d, from) <= 16,
        next_lowered(d, from) < 16 ==> hall_bit(d, next_lowered(d, from)) == 0,
    decreases 16 - from,
{
    if from < 16 && hall_bit(d, from) != 0 {
        lemma_next_lowered_range(d, from + 1);
    }
}

/// The run of raised bits at the bottom of the word shifted right by `p` ends at the
/// next lowered bit.
proof fn lemma_ones_run_lowered(d: u16, p: nat, v: u16, n: nat)
    requires
        p <= 16,
        v as nat == d as nat / pow2(p),
        n + p >= 16,
    ensures
        ones_run(v, n) == next_lowered(d, p) - p,
    decreases 16 - p,
{
    lemma_pow2_pos(p);
    if p == 16 {
        lemma2_to64();
        assert(d as nat / pow2(16) == 0) by (nonlinear_arith)
            requires
                pow2(16) == 0x10000,
                (d as nat) < 0x10000,
        ;
        assert(v == 0);
    } else {
        assert(n > 0);
        assert(hall_bit(d, p) == v % 2);
        if v % 2 == 1 {
            lemma_pow2_unfold(p + 1);
            lemma_div_denominator(d as int, pow2(p) as int, 2);
            assert(pow2(p) * 2 == pow2(p + 1));
            assert((v / 2) as nat == d as nat / pow2(p + 1));
            lemma_ones_run_lowered(d, p + 1, v / 2, (n - 1) as nat);
        }
    }
}

/// Shifting the word already shifted by `p` right by `k` more is shifting it by `p + k`.
proof fn lemma_shifted(d: u16, p: nat, v: u16, k: u16)
    requires
        v as nat == d as nat / pow2(p),
        k < 16,
    ensures
        (v >> k) as nat == d as nat / pow2(p + k as nat),
{
    lemma_u16_shr_is_div(v, k);
    lemma_pow2_pos(p);
    lemma_pow2_pos(k as nat);
    lemma_div_denominator(d as int, pow2(p) as int, pow2(k as nat) as int);
    lemma_pow2_adds(p, k as nat);
}

/// On a scannable word, the bit-by-bit scan finds exactly the indices of
/// `spec_hall_indices` and never shifts the word by its whole width.
proof fn lemma_scan_is_direct(d: u16)
    requires
        hall_scannable(d),
    ensures
        index_scan(d, 0, 0, seq![255u8, 255u8, 255u8]) == spec_hall_indices(d),
        index_scan_shifts_fit(d, 0, 0),
{
    let z0 = next_lowered(d, 0);
    let z1 = next_lowered(d, z0 + 1);
    let z2 = next_lowered(d, z1 + 1);
    lemma_next_lowered_range(d, 0);
    lemma_next_lowered_range(d, z0 + 1);
    lemma_next_lowered_range(d, z1 + 1);
    lemma2_to64();
    assert(d as nat / pow2(0) == d);
    lemma_ones_run_lowered(d, 0, d, 16);
    let init = seq![255u8, 255u8, 255u8];
    // first step: at position 0 the run ends at z0 (at most 14)
    let f1 = init.update(0, z0 as u8);
    let p1 = z0 + 1;
    let r1 = d >> (z0 + 1) as u16;
    lemma_shifted(d, 0, d, (z0 + 1) as u16);
    lemma_ones_run_lowered(d, p1, r1, 16);
    if z1 == p1 {
        // adjacent lowered bits: the scan ends after one index
        assert(index_scan(r1, p1, 1, f1) == f1);
        assert(index_scan_shifts_fit(r1, p1, 1));
        assert(index_scan_shifts_fit(d, 0, 0));
        assert(index_scan(d, 0, 0, init) == index_scan(r1, p1, 1, f1));
        assert(f1 =~= spec_hall_indices(d));
    } else {
        assert(z1 - p1 + 1 < 16);
        let f2 = if z1 < 16 {
            f1.update(1, z1 as u8)
        } else {
            f1
        };
        if p1 + (z1 - p1) + 1 >= 16 {
            assert(index_scan(r1, p1, 1, f1) == f2);
            assert(index_scan_shifts_fit(r1, p1, 1));
            assert(index_scan_shifts_fit(d, 0, 0));
            assert(index_scan(d, 0, 0, init) == f2);
            assert(f2 =~= spec_hall_indices(d));
        } else {
            let p2 = z1 + 1;
            let r2 = r1 >> (z1 - p1 + 1) as u16;
            lemma_shifted(d, p1, r1, (z1 - p1 + 1) as u16);
            assert(p1 + (z1 - p1 + 1) == p2);
            lemma_ones_run_lowered(d, p2, r2, 16);
            let f3 = if z2 == p2 {
                f2
            } else if z2 < 16 {
                f2.update(2, z2 as u8)
            } else {
                f2
            };
            assert(index_scan(r2, p2, 2, f2) == f3);
            assert(index_scan_shifts_fit(r2, p2, 2));
            assert(index_scan_shifts_fit(r1, p1, 1));
            assert(index_scan_shifts_fit(d, 0, 0));
            assert(index_scan(r1, p1, 1, f1) == index_scan(r2, p2, 2, f2));
            assert(index_scan(d, 0, 0, init) == f3);
            assert(f3 =~= spec_hall_indices(d));
        }
    }
}

proof fn lemma_fit_is_direct(d: u16)
    ensures
        index_scan_shifts_fit(d, 0, 0) == hall_scannable(d),
{
    if hall_scannable(d) {
        lemma_scan_is_direct(d);
    } else {
        let z0 = next_lowered(d, 0);
        lemma_next_lowered_range(d, 0);
        lemma2_to64();
        assert(d as nat / pow2(0) == d);
        lemma_ones_run_lowered(d, 0, d, 16);
        if z0 <= 14 {
            assert(z0 == 0 && next_lowered(d, 1) == 16);
            let r1 = d >> 1u16;
            lemma_shifted(d, 0, d, 1u16);
            lemma_ones_run_lowered(d, 1, r1, 16);
            assert(!index_scan_shifts_fit(r1, 1, 1));
        }
    }
}

fn trailing_ones_u16(v: u16) -> (r: u32)
    ensures
        r == trailing_ones(v),
        r <= 16,
{
    let mut rest: u16 = v;
    let mut k: u32 = 0;
    while k < 16 && rest % 2 == 1
        invariant
            k <= 16,
            ones_run(v, 16) == k + ones_run(rest, (16 - k) as nat),
        decreases 16 - k,
    {
        rest = rest / 2;
        k = k + 1;
    }
    k
}

/// Indices (0 to 15) of up to three detecting hall sensors, lowest first; 255 where
/// there is none.
pub fn hall_indices(d: u16) -> (r: [u8; 3])
    requires
        hall_scannable(d),
    ensures
        r@ == spec_hall_indices(d),
{
    proof {
        lemma_scan_is_direct(d);
    }
    let mut allindices: [u8; 3] = [0xff; 3];
    assert(allindices@ =~= seq![255u8, 255u8, 255u8]);
    let mut tmpidx: u32 = 0;
    let mut i: usize = 0;
    let mut didx: u16 = d;
    while tmpidx < 16
        invariant
            i < 3,
            tmpidx <= 32,
            index_scan(didx, tmpidx as nat, i as nat, allindices@) == index_scan(
                d,
                0,
                0,
                seq![255u8, 255u8, 255u8],
            ),
            index_scan(d, 0, 0, seq![255u8, 255u8, 255u8]) == spec_hall_indices(d),
            index_scan_shifts_fit(didx, tmpidx as nat, i as nat),
        ensures
            allindices@ == spec_hall_indices(d),
        decreases 32 - tmpidx,
    {
        let idx = trailing_ones_u16(didx);
        if idx == 0 && tmpidx > 0 {
            break;
        }
        if idx < 16 && idx + tmpidx < 16 {
            allindices[i] = (idx + tmpidx) as u8;
        }
        tmpidx = tmpidx + idx + 1;
        didx = didx >> ((idx + 1) as u16);
        i = i + 1;
        if i == 3 {
            return allindices;
        }
    }
    allindices
}

/// Whether a hall word can be scanned: no step of the scan shifts the word by its whole
/// width (a word whose fifteen low bits, or fifteen bits above a lowered bit 0, are all
/// raised).
pub fn hall_word_scannable(d: u16) -> (r: bool)
    ensures
        r == hall_scannable(d),
{
    proof {
        lemma_fit_is_direct(d);
    }
    let mut tmpidx: u32 = 0;
    let mut i: u32 = 0;
    let mut didx: u16 = d;
    while tmpidx < 16
        invariant
            i < 3,
            tmpidx <= 32,
            index_scan_shifts_fit(didx, tmpidx as nat, i as nat) == index_scan_shifts_fit(
                d,
                0,
                0,
            ),
            index_scan_shifts_fit(d, 0, 0) == hall_scannable(d),
        decreases 32 - tmpidx,
    {
        let idx = trailing_ones_u16(didx);
        if idx == 0 && tmpidx > 0 {
            return true;
        }
        if idx + 1 >= 16 {
            return false;
        }
        tmpidx = tmpidx + idx + 1;
        didx = didx >> ((idx + 1) as u16);
        i = i + 1;
        if i == 3 {
            return true;
        }
    }
    true
}

/// `v` is one of the indices of `s`.
pub open spec fn has_index(s: Seq<u8>, v: u8) -> bool {
    s.contains(v)
}

/// The index met while moving from the hall reading `start` to `end`, and whether the
/// motor entered a detection zone (from the left): an index seen at the end and not at
/// the start is entered; an index seen at the start and not at the end, which takes
/// precedence, is left. Without either, the index is 255.
pub open spec fn spec_moved_index(start: Seq<u8>, end: Seq<u8>) -> (u8, bool) {
    let left_start = Seq::new(3, |k: int| start[k] != 255 && !end.contains(start[k]));
    let entered_end = Seq::new(3, |k: int| end[k] != 255 && !start.contains(end[k]));
    if left_start[2] {
        (start[2], false)
    } else if left_start[1] {
        (start[1], false)
    } else if left_start[0] {
        (start[0], false)
    } else if entered_end[2] {
        (end[2], true)
    } else if entered_end[1] {
        (end[1], true)
    } else if entered_end[0] {
        (end[0], true)
    } else {
        (255, false)
    }
}

fn contains3(s: [u8; 3], v: u8) -> (r: bool)
    ensures
        r == s@.contains(v),
{
    let r = s[0] == v || s[1] == v || s[2] == v;
    proof {
        if r {
            if s[0] == v {
                assert(s@[0] == v);
            } else if s[1] == v {
                assert(s@[1] == v);
            } else {
                assert(s@[2] == v);
            }
        }
    }
    r
}

/// The index met while moving between two hall readings (see `spec_moved_index`).
pub fn moved_index(start: [u8; 3], end: [u8; 3]) -> (r: (u8, bool))
    ensures
        r == spec_moved_index(start@, end@),
{
    let mut final_idx: u8 = 255;
    let mut detected_from_left = false;
    let mut k: usize = 0;
    while k < 3
        invariant
            k <= 3,
            (final_idx, detected_from_left) == (if k >= 3 && end[2] != 255 && !start@.contains(
                end[2],
            ) {
                (end[2], true)
            } else if k >= 2 && end[1] != 255 && !start@.contains(end[1]) {
                (end[1], true)
            } else if k >= 1 && end[0] != 255 && !start@.contains(end[0]) {
                (end[0], true)
            } else {
                (255u8, false)
            }),
        decreases 3 - k,
    {
        let index = end[k];
        if !contains3(start, index) && index != 255 {
            detected_from_left = true;
            final_idx = index;
        }
        k = k + 1;
    }
    let mut k: usize = 0;
    let ghost entered = (final_idx, detected_from_left);
    while k < 3
        invariant
            k <= 3,
            (final_idx, detected_from_left) == (if k >= 3 && start[2] != 255 && !end@.contains(
                start[2],
            ) {
                (start[2], false)
            } else if k >= 2 && start[1] != 255 && !end@.contains(start[1]) {
                (start[1], false)
            } else if k >= 1 && start[0] != 255 && !end@.contains(start[0]) {
                (start[0], false)
            } else {
                entered
            }),
        decreases 3 - k,
    {
        let index = start[k];
        if !contains3(end, index) && index != 255 {
            detected_from_left = false;
            final_idx = index;
        }
        k = k + 1;
    }
    (final_idx, detected_from_left)
}

/// The motor has left the detection zone it searched: the hall word changed and fewer
/// sensors detect than at the start.
pub fn detection_zone_left(start: u16, now: u16) -> (r: bool)
    ensures
        r == (now != start && 16 - ones(now, 16) < 16 - ones(start, 16)),
{
    now != start && 16 - count_ones(now) < 16 - count_ones(start)
}

/// Encoder counts a motor must turn forward during the start-up movement check.
pub const MIN_CHECK_MOVEMENT: i32 = 100000;

/// The encoder difference of the movement check, saturated to the `i32` range.
pub open spec fn spec_saturating_diff(position: i32, initial: i32) -> i32 {
    let d = position - initial;
    if d > i32::MAX {
        i32::MAX
    } else if d < i32::MIN {
        i32::MIN
    } else {
        d as i32
    }
}

/// The motor moved far enough forward during the start-up movement check.
pub fn motor_moved_enough(initial_position: i32, position: i32) -> (r: bool)
    ensures
        r == (spec_saturating_diff(position, initial_position) >= MIN_CHECK_MOVEMENT),
{
    let wide: i64 = position as i64 - initial_position as i64;
    let diff: i32 = if wide > i32::MAX as i64 {
        i32::MAX
    } else if wide < i32::MIN as i64 {
        i32::MIN
    } else {
        wide as i32
    };
    diff >= MIN_CHECK_MOVEMENT
}

} // verus!
