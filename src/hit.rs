//! Choice of the closest intersection along a ray.
//!
//! An intersection distance is a 32-bit float. It enters this module as its
//! bit pattern (`f32::to_bits`), and distances are compared in the total order
//! of `f32::total_cmp`, so that every pair of distances is comparable. A NaN
//! distance is never a hit: it cannot win the comparison by accident.

use vstd::prelude::*;

use crate::float_bits::{is_nan, is_nan_bits, order_key, total_order_key, lemma_order_key_injective};

verus! {

/// An intersection result that counts as a hit: present, with a real distance.
pub open spec fn is_valid_hit(h: Option<u32>) -> bool {
    match h {
        Some(bits) => !is_nan_bits(bits),
        None => false,
    }
}

/// Rank of the distance of a valid hit.
pub open spec fn hit_key(h: Option<u32>) -> int
    recommends
        is_valid_hit(h),
{
    match h {
        Some(bits) => order_key(bits),
        None => 0,
    }
}

/// Some entry of `hits` is a valid hit.
pub open spec fn has_hit(hits: Seq<Option<u32>>) -> bool {
    exists|j: int| 0 <= j < hits.len() && #[trigger] is_valid_hit(hits[j])
}

/// `k` is the closest valid hit of `hits`: no valid hit lies nearer, and every
/// valid hit before it lies strictly farther (the first of equally near ones).
pub open spec fn is_closest(hits: Seq<Option<u32>>, k: int) -> bool {
    &&& 0 <= k < hits.len()
    &&& is_valid_hit(hits[k])
    &&& forall|j: int|
        0 <= j < hits.len() && #[trigger] is_valid_hit(hits[j]) ==> hit_key(hits[k]) <= hit_key(
            hits[j],
        )
    &&& forall|j: int|
        0 <= j < k && #[trigger] is_valid_hit(hits[j]) ==> hit_key(hits[k]) < hit_key(hits[j])
}

/// The intersection results of the primitives that `candidates` lists, in
/// the order of the list.
pub open spec fn filtered(hits: Seq<Option<u32>>, candidates: Seq<usize>) -> Seq<Option<u32>> {
    candidates.map_values(|c: usize| hits[c as int])
}

/// Index of the closest valid hit among the intersection results `hits`
/// (one per primitive, the distance as `f32` bits), or `None` when none is a
/// valid hit. Among equally near hits the first one wins.
pub fn closest_hit(hits: &Vec<Option<u32>>) -> (r: Option<usize>)
    ensures
        r is None <==> !has_hit(hits@),
        r matches Some(k) ==> is_closest(hits@, k as int),
{
    let mut best: Option<usize> = None;
    let mut best_key: i64 = 0;
    let mut i: usize = 0;
    while i < hits.len()
        invariant
            0 <= i <= hits.len(),
            best is None ==> forall|j: int| 0 <= j < i ==> !#[trigger] is_valid_hit(hits@[j]),
            best matches Some(k) ==> {
                &&& k < i
                &&& is_valid_hit(hits@[k as int])
                &&& best_key == hit_key(hits@[k as int])
                &&& forall|j: int|
                    0 <= j < i && #[trigger] is_valid_hit(hits@[j]) ==> best_key <= hit_key(
                        hits@[j],
                    )
                &&& forall|j: int|
                    0 <= j < k && #[trigger] is_valid_hit(hits@[j]) ==> best_key < hit_key(
                        hits@[j],
                    )
            },
        decreases hits.len() - i,
    {
        if let Some(bits) = hits[i] {
            if !is_nan(bits) {
                let key = total_order_key(bits);
                match best {
                    None => {
                        best = Some(i);
                        best_key = key;
                    },
                    Some(_) => {
                        if key < best_key {
                            best = Some(i);
                            best_key = key;
                        }
                    },
                }
            }
        }
        i += 1;
    }
    best
}

/// Filtering by the acceleration structure does not change the answer. Let
/// `hits` hold the intersection result of every primitive of a scene, and let
/// `candidates` list primitives (in any order, possibly more than once) such
/// that every primitive the ray validly hits is among them. Then the closest
/// hit among the candidates exists exactly when the closest hit among all
/// primitives does, and the two lie at the same distance.
pub proof fn lemma_filtered_closest_hit(
    hits: Seq<Option<u32>>,
    candidates: Seq<usize>,
    k_filtered: int,
    k_all: int,
)
    requires
        forall|i: int| 0 <= i < candidates.len() ==> candidates[i] < hits.len(),
        forall|j: int|
            0 <= j < hits.len() && #[trigger] is_valid_hit(hits[j]) ==> exists|p: int|
                0 <= p < candidates.len() && candidates[p] as int == j,
    ensures
        has_hit(filtered(hits, candidates)) == has_hit(hits),
        is_closest(filtered(hits, candidates), k_filtered) && is_closest(hits, k_all)
            ==> filtered(hits, candidates)[k_filtered] == hits[k_all],
{
    let f = filtered(hits, candidates);
    if has_hit(f) {
        let i = choose|i: int| 0 <= i < f.len() && #[trigger] is_valid_hit(f[i]);
        assert(is_valid_hit(hits[candidates[i] as int]));
    }
    if has_hit(hits) {
        let j = choose|j: int| 0 <= j < hits.len() && #[trigger] is_valid_hit(hits[j]);
        let p = choose|p: int| 0 <= p < candidates.len() && candidates[p] as int == j;
        assert(f[p] == hits[j]);
        assert(is_valid_hit(f[p]));
    }
    if is_closest(f, k_filtered) && is_closest(hits, k_all) {
        let c = candidates[k_filtered] as int;
        assert(f[k_filtered] == hits[c]);
        assert(is_valid_hit(hits[c]));
        let p = choose|p: int| 0 <= p < candidates.len() && candidates[p] as int == k_all;
        assert(f[p] == hits[k_all]);
        assert(is_valid_hit(f[p]));
        assert(hit_key(f[k_filtered]) == hit_key(hits[k_all]));
        match (f[k_filtered], hits[k_all]) {
            (Some(a), Some(b)) => lemma_order_key_injective(a, b),
            _ => {},
        }
    }
}

} // verus!
