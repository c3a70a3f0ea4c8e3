//! Which root of a ray-sphere intersection counts.
//!
//! With `b` the projection of the offset between ray origin and sphere
//! centre on the unit ray direction, and `d` the discriminant
//! `b² - (|offset|² - radius²)`, the caller computes the candidate
//! distances `-b`, `-b + d` and `-b - d` in double precision. The choice
//! among them is made here, on their bit patterns. The discriminant enters
//! the candidates as it is, without a square root.
use crate::double::{less, equal, spec_equal, spec_less, ZERO_BITS};
use vstd::prelude::*;

verus! {

/// The distance at which a ray meets a sphere, given the discriminant, the
/// distance of a tangent ray, and the two candidates of a ray that cuts
/// through: none below a discriminant of zero, the tangent distance at
/// zero, else the smaller candidate, the first one if neither is smaller.
pub open spec fn spec_pick_root(discriminant: u64, tangent: u64, first: u64, second: u64) -> Option<
    u64,
> {
    if spec_less(discriminant, ZERO_BITS) {
        None
    } else if spec_equal(discriminant, ZERO_BITS) {
        Some(tangent)
    } else if spec_less(second, first) {
        Some(second)
    } else {
        Some(first)
    }
}

/// Chooses the hit distance of a ray on a sphere from the discriminant and
/// the candidate distances, all given as bit patterns. A negative
/// discriminant is a miss. No candidate is excluded for its sign: a hit
/// behind the origin of the ray is a hit.
#[verifier::when_used_as_spec(spec_pick_root)]
pub fn pick_root(discriminant: u64, tangent: u64, first: u64, second: u64) -> (root: Option<u64>)
    ensures
        root == spec_pick_root(discriminant, tangent, first, second),
{
    if less(discriminant, ZERO_BITS) {
        None
    } else if equal(discriminant, ZERO_BITS) {
        Some(tangent)
    } else if less(second, first) {
        Some(second)
    } else {
        Some(first)
    }
}

/// A ray misses exactly when the discriminant is a number below zero.
pub proof fn lemma_miss_iff_negative_discriminant(
    discriminant: u64,
    tangent: u64,
    first: u64,
    second: u64,
)
    ensures
        spec_pick_root(discriminant, tangent, first, second) is None <==> spec_less(
            discriminant,
            ZERO_BITS,
        ),
{
}

/// Above a discriminant of zero the root is one of the two candidates, and
/// neither candidate is smaller than it.
pub proof fn lemma_root_is_the_smaller(discriminant: u64, tangent: u64, first: u64, second: u64)
    requires
        spec_less(ZERO_BITS, discriminant),
    ensures
        spec_pick_root(discriminant, tangent, first, second) matches Some(root) && (root == first
            || root == second) && !spec_less(first, root) && !spec_less(second, root),
{
}

} // verus!
