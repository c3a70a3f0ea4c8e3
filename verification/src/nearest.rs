//! Choosing, among the shapes a ray meets, the one it meets first.
//!
//! The choice rests on the order of the distances alone, so it is made on
//! signed integers. Distances in double precision are first turned into
//! their order keys; one that is not a number has no key and counts as a
//! miss.
use crate::double::{order_key, spec_order_key};
use vstd::prelude::*;

verus! {

/// No shape is hit.
pub open spec fn all_miss(hits: Seq<Option<i64>>) -> bool {
    forall|j: int| 0 <= j < hits.len() ==> (#[trigger] hits[j]) is None
}

/// Shape `i` is the nearest hit: it is hit, no shape is hit at a smaller
/// distance, and no shape before it is hit at the same distance.
pub open spec fn is_nearest(hits: Seq<Option<i64>>, i: int) -> bool {
    &&& 0 <= i < hits.len()
    &&& hits[i] is Some
    &&& forall|j: int|
        0 <= j < hits.len() && (#[trigger] hits[j]) is Some ==> hits[i]->0 <= hits[j]->0
    &&& forall|j: int| 0 <= j < i && (#[trigger] hits[j]) is Some ==> hits[i]->0 < hits[j]->0
}

/// At most one shape is the nearest hit.
pub proof fn lemma_nearest_is_unique(hits: Seq<Option<i64>>, i: int, j: int)
    requires
        is_nearest(hits, i),
        is_nearest(hits, j),
    ensures
        i == j,
{
    if i < j {
        assert(hits[i] is Some);
    } else if j < i {
        assert(hits[j] is Some);
    }
}

/// Where there is a nearest hit, some shape is hit.
pub proof fn lemma_nearest_excludes_all_miss(hits: Seq<Option<i64>>, i: int)
    requires
        is_nearest(hits, i),
    ensures
        !all_miss(hits),
{
    assert(hits[i] is Some);
}

/// Where some shape is hit, one of the shapes is the nearest hit. The
/// result is that shape.
pub proof fn lemma_some_hit_has_nearest(hits: Seq<Option<i64>>) -> (i: int)
    requires
        !all_miss(hits),
    ensures
        is_nearest(hits, i),
    decreases hits.len(),
{
    let n = hits.len() as int;
    assert(n > 0);
    let before = hits.drop_last();
    assert(forall|j: int| 0 <= j < n - 1 ==> #[trigger] before[j] == hits[j]);
    if all_miss(before) {
        assert(hits[n - 1] is Some) by {
            if hits[n - 1] is None {
                assert forall|j: int| 0 <= j < hits.len() implies (#[trigger] hits[j]) is None by {
                    if j < n - 1 {
                        assert(before[j] is None);
                    }
                }
            }
        }
        assert forall|j: int| 0 <= j < n - 1 implies (#[trigger] hits[j]) is None by {
            assert(before[j] is None);
        }
        n - 1
    } else {
        let p = lemma_some_hit_has_nearest(before);
        assert(hits[p] == before[p]);
        if hits[n - 1] is Some && hits[n - 1]->0 < hits[p]->0 {
            assert forall|j: int| 0 <= j < n - 1 && (#[trigger] hits[j]) is Some implies hits[n
                - 1]->0 < hits[j]->0 by {
                assert(before[j] is Some);
            }
            n - 1
        } else {
            assert forall|j: int| 0 <= j < hits.len() && (#[trigger] hits[j]) is Some implies hits[p]->0
                <= hits[j]->0 by {
                if j < n - 1 {
                    assert(before[j] is Some);
                }
            }
            assert forall|j: int| 0 <= j < p && (#[trigger] hits[j]) is Some implies hits[p]->0
                < hits[j]->0 by {
                assert(before[j] is Some);
            }
            p
        }
    }
}

/// Finds the nearest hit. `hits[k]` is the distance at which the ray meets
/// shape `k`, or `None` where it misses. Of several shapes at the same
/// smallest distance the first one wins.
pub fn nearest_hit(hits: &Vec<Option<i64>>) -> (nearest: Option<usize>)
    ensures
        match nearest {
            Some(i) => is_nearest(hits@, i as int),
            None => all_miss(hits@),
        },
{
    let mut nearest: Option<usize> = None;
    let mut distance: i64 = 0;
    for k in 0..hits.len()
        invariant
            match nearest {
                Some(i) => {
                    &&& i < k
                    &&& hits@[i as int] == Some(distance)
                    &&& forall|j: int|
                        0 <= j < k && (#[trigger] hits@[j]) is Some ==> distance <= hits@[j]->0
                    &&& forall|j: int|
                        0 <= j < i && (#[trigger] hits@[j]) is Some ==> distance < hits@[j]->0
                },
                None => forall|j: int| 0 <= j < k ==> (#[trigger] hits@[j]) is None,
            },
    {
        if let Some(q) = hits[k] {
            if nearest.is_none() || q < distance {
                nearest = Some(k);
                distance = q;
            }
        }
    }
    nearest
}

/// The key of a distance given as a bit pattern: none for a miss, and none
/// for a distance that is not a number.
pub open spec fn key_of(distance: Option<u64>) -> Option<i64> {
    match distance {
        Some(bits) => spec_order_key(bits),
        None => None,
    }
}

/// The keys of the distances at which one ray meets the shapes.
pub open spec fn keys_of(distances: Seq<Option<u64>>) -> Seq<Option<i64>> {
    Seq::new(distances.len(), |k: int| key_of(distances[k]))
}

/// Finds the nearest hit among distances in double precision, given as
/// bit patterns: the shape with the smallest distance that is a number, the
/// first of them where several share it. The distance may be negative.
pub fn nearest_of_doubles(distances: &Vec<Option<u64>>) -> (nearest: Option<usize>)
    ensures
        match nearest {
            Some(i) => is_nearest(keys_of(distances@), i as int) && distances@[i as int] is Some,
            None => all_miss(keys_of(distances@)),
        },
{
    let mut keys: Vec<Option<i64>> = Vec::new();
    for k in 0..distances.len()
        invariant
            keys@.len() == k,
            forall|j: int| 0 <= j < k ==> keys@[j] == key_of(distances@[j]),
    {
        let key = match distances[k] {
            Some(bits) => order_key(bits),
            None => None,
        };
        keys.push(key);
    }
    assert(keys@ =~= keys_of(distances@));
    nearest_hit(&keys)
}

} // verus!
