//! Double-precision numbers as their bit patterns.
//!
//! The arithmetic of a ray caster is done in IEEE 754 double precision,
//! outside this crate. What this crate decides about such numbers it
//! decides on their 64-bit patterns: which of two is smaller, and whether
//! they are equal. A pattern is a sign bit over a 63-bit magnitude, and the
//! numbers are ordered as those signed magnitudes are; a magnitude above
//! that of infinity is not a number and compares with nothing.
use vstd::prelude::*;

verus! {

/// The sign bit of a pattern.
pub const SIGN_BIT: u64 = 0x8000_0000_0000_0000;

/// The pattern of positive infinity, the largest magnitude of a number.
pub const INFINITY_BITS: u64 = 0x7FF0_0000_0000_0000;

/// The pattern of positive zero.
pub const ZERO_BITS: u64 = 0;

/// The pattern of one.
pub const ONE_BITS: u64 = 0x3FF0_0000_0000_0000;

/// Whether the sign bit of `bits` is set.
pub open spec fn is_negative(bits: u64) -> bool {
    bits >= SIGN_BIT
}

/// `bits` without its sign bit: exponent and fraction read as one integer.
pub open spec fn magnitude(bits: u64) -> int {
    if is_negative(bits) {
        bits - SIGN_BIT
    } else {
        bits as int
    }
}

/// Whether `bits` stands for a number, infinities included.
pub open spec fn is_number(bits: u64) -> bool {
    magnitude(bits) <= INFINITY_BITS
}

/// The key of a pattern: its magnitude, negated where the sign bit is set;
/// none where the pattern is not a number. Both zeros have key 0.
pub open spec fn spec_order_key(bits: u64) -> Option<i64> {
    if !is_number(bits) {
        None
    } else if is_negative(bits) {
        Some((-magnitude(bits)) as i64)
    } else {
        Some(magnitude(bits) as i64)
    }
}

/// `a < b` as double precision has it: both are numbers, and `a` has the
/// smaller key.
pub open spec fn spec_less(a: u64, b: u64) -> bool {
    is_number(a) && is_number(b) && spec_order_key(a)->0 < spec_order_key(b)->0
}

/// `a == b` as double precision has it: both are numbers with one key.
pub open spec fn spec_equal(a: u64, b: u64) -> bool {
    is_number(a) && is_number(b) && spec_order_key(a)->0 == spec_order_key(b)->0
}

/// Turns a pattern into an integer that sorts as the number does.
#[verifier::when_used_as_spec(spec_order_key)]
pub fn order_key(bits: u64) -> (key: Option<i64>)
    ensures
        key == spec_order_key(bits),
{
    if bits >= SIGN_BIT {
        let m: u64 = bits - SIGN_BIT;
        if m > INFINITY_BITS {
            None
        } else {
            Some(-(m as i64))
        }
    } else if bits > INFINITY_BITS {
        None
    } else {
        Some(bits as i64)
    }
}

/// Whether the number `a` is smaller than the number `b`; false where
/// either is not a number.
#[verifier::when_used_as_spec(spec_less)]
pub fn less(a: u64, b: u64) -> (r: bool)
    ensures
        r == spec_less(a, b),
{
    match (order_key(a), order_key(b)) {
        (Some(ka), Some(kb)) => ka < kb,
        _ => false,
    }
}

/// Whether `a` and `b` are the same number; false where either is not a
/// number. The two zeros are equal.
#[verifier::when_used_as_spec(spec_equal)]
pub fn equal(a: u64, b: u64) -> (r: bool)
    ensures
        r == spec_equal(a, b),
{
    match (order_key(a), order_key(b)) {
        (Some(ka), Some(kb)) => ka == kb,
        _ => false,
    }
}

/// Keys order patterns the way double precision orders the numbers they
/// stand for: a negative number lies below a positive one, two positive
/// numbers compare as their magnitudes, two negative ones the other way
/// round, and the two zeros are equal.
pub proof fn lemma_key_order(a: u64, b: u64)
    requires
        is_number(a),
        is_number(b),
    ensures
        spec_less(a, b) <==> if is_negative(a) {
            if is_negative(b) {
                magnitude(a) > magnitude(b)
            } else {
                magnitude(a) > 0 || magnitude(b) > 0
            }
        } else {
            !is_negative(b) && magnitude(a) < magnitude(b)
        },
        spec_equal(a, b) <==> magnitude(a) == magnitude(b) && (is_negative(a) == is_negative(b)
            || magnitude(a) == 0),
{
}

/// Of two numbers exactly one holds: the first is smaller, they are equal,
/// or the second is smaller. Of a pattern that is not a number none holds.
pub proof fn lemma_trichotomy(a: u64, b: u64)
    ensures
        is_number(a) && is_number(b) ==> (spec_less(a, b) || spec_equal(a, b) || spec_less(b, a)),
        !(spec_less(a, b) && spec_equal(a, b)),
        !(spec_less(a, b) && spec_less(b, a)),
        !(spec_less(b, a) && spec_equal(a, b)),
        !is_number(a) || !is_number(b) ==> !spec_less(a, b) && !spec_equal(a, b) && !spec_less(b, a),
{
}

/// Smaller-than is transitive, and it respects equality.
pub proof fn lemma_less_is_transitive(a: u64, b: u64, c: u64)
    ensures
        spec_less(a, b) && spec_less(b, c) ==> spec_less(a, c),
        spec_less(a, b) && spec_equal(b, c) ==> spec_less(a, c),
        spec_equal(a, b) && spec_less(b, c) ==> spec_less(a, c),
        spec_equal(a, b) && spec_equal(b, c) ==> spec_equal(a, c),
{
}

} // verus!
