//! Small parsing helpers.

use vstd::prelude::*;

verus! {

/// `x` clamped to the 32-bit signed range.
pub open spec fn sat_i32(x: int) -> int {
    if x > i32::MAX {
        i32::MAX as int
    } else if x < i32::MIN {
        i32::MIN as int
    } else {
        x
    }
}

/// One step of [`spec_number`]: bytes at distance at most nine above `'0'`
/// (including every byte below it, whose offset is negative) are folded in
/// saturating at the 32-bit bounds; other bytes are passed over.
pub open spec fn number_fold(n: int, s: Seq<u8>) -> int
    decreases s.len(),
{
    if s.len() == 0 {
        n
    } else {
        let d = s[0] as int - 48;
        let n2 = if d <= 9 {
            sat_i32(sat_i32(n * 10) + d)
        } else {
            n
        };
        number_fold(n2, s.subrange(1, s.len() as int))
    }
}

/// The number [`number`] reads from `s`.
pub open spec fn spec_number(s: Seq<u8>) -> int {
    number_fold(0, s)
}

/// Multiplication by ten, saturating at the 32-bit bounds.
fn sat_mul10(n: i32) -> (r: i32)
    ensures
        r as int == sat_i32(n as int * 10),
{
    match n.checked_mul(10) {
        Some(v) => v,
        None => {
            if n > 0 {
                i32::MAX
            } else {
                i32::MIN
            }
        },
    }
}

/// Addition, saturating at the 32-bit bounds.
fn sat_add(n: i32, d: i32) -> (r: i32)
    ensures
        r as int == sat_i32(n as int + d as int),
{
    match n.checked_add(d) {
        Some(v) => v,
        None => {
            if d > 0 {
                i32::MAX
            } else {
                i32::MIN
            }
        },
    }
}

/// Reads a decimal number from `i`, folding in every byte within nine of
/// `'0'` and passing over the rest, saturating at the 32-bit bounds.
pub fn number(i: &[u8]) -> (r: i32)
    ensures
        r as int == spec_number(i@),
{
    let mut n: i32 = 0;
    let mut k: usize = 0;
    assert(i@.skip(0) =~= i@);
    while k < i.len()
        invariant
            k <= i@.len(),
            number_fold(0, i@) == number_fold(n as int, i@.skip(k as int)),
        decreases i@.len() - k,
    {
        let ch = i[k];
        let d: i32 = (ch as i32) - 48;
        proof {
            assert(i@.skip(k as int)[0] == i@[k as int]);
            assert(i@.skip(k as int).subrange(1, i@.skip(k as int).len() as int) =~= i@.skip(
                k as int + 1,
            ));
        }
        if d <= 9 {
            n = sat_add(sat_mul10(n), d);
        }
        k = k + 1;
    }
    proof {
        assert(i@.skip(i@.len() as int) =~= Seq::<u8>::empty());
    }
    n
}

} // verus!
