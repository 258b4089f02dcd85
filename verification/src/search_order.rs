//! The order in which a breadth-first search over the hex grid, trying the
//! neighbors of each hex north, northeast, southeast, south, southwest,
//! northwest, reaches the hexes of each ring around its start, and the
//! predecessor through which it reaches each of them.
//!
//! Positions are offsets `(a, b)` from the start; the ring of a position is
//! its hex distance from the start.
use vstd::prelude::*;
use crate::hexagon::{abs_int, axial_distance, lemma_axial_distance_is_max, neighbor_offset};

verus! {

/// The ring of the offset `(a, b)`: its hex distance from the start.
pub open spec fn ring(a: int, b: int) -> int {
    axial_distance(a, b, 0, 0)
}

/// Position of the offset `(a, b)` within its ring in the order the search
/// reaches that ring: first the north corner, then alternately the hexes of
/// the north-northeast and the north-northwest sides moving away from it,
/// then clockwise from the northeast corner round to the northwest corner.
pub open spec fn ring_key(a: int, b: int) -> int {
    let k = ring(a, b);
    if k == 0 {
        0
    } else if b == -k && 0 <= a < k {
        if a == 0 {
            0
        } else {
            2 * a - 1
        }
    } else if a + b == -k && -k < a < 0 {
        -2 * a
    } else if a == k {
        3 * k - 1 + b
    } else if a + b == k || b == k {
        4 * k - 1 - a
    } else {
        6 * k - 1 - b
    }
}

/// Stepping back from `(a, b)` against direction `i` leads one ring inwards.
pub open spec fn back_closer(a: int, b: int, i: int) -> bool {
    ring(a - neighbor_offset(i).0, b - neighbor_offset(i).1) == ring(a, b) - 1
}

/// The direction through which the search first reaches `(a, b)`: the
/// highest-numbered direction whose step back leads one ring inwards.
pub open spec fn parent_dir(a: int, b: int) -> int {
    if back_closer(a, b, 5) {
        5
    } else if back_closer(a, b, 4) {
        4
    } else if back_closer(a, b, 3) {
        3
    } else if back_closer(a, b, 2) {
        2
    } else if back_closer(a, b, 1) {
        1
    } else {
        0
    }
}

/// Offset of the hex through which the search first reaches `(a, b)`.
pub open spec fn parent_a(a: int, b: int) -> int {
    a - neighbor_offset(parent_dir(a, b)).0
}

/// Offset of the hex through which the search first reaches `(a, b)`.
pub open spec fn parent_b(a: int, b: int) -> int {
    b - neighbor_offset(parent_dir(a, b)).1
}

/// Rank of the way the search reaches `(a, b)`: first by the position of
/// its predecessor in the inner ring, then by the direction.
pub open spec fn reach_rank(a: int, b: int) -> int {
    6 * ring_key(parent_a(a, b), parent_b(a, b)) + parent_dir(a, b)
}

pub(crate) proof fn lemma_ring_is_max(a: int, b: int)
    ensures
        ring(a, b) >= abs_int(a),
        ring(a, b) >= abs_int(b),
        ring(a, b) >= abs_int(a + b),
        ring(a, b) == abs_int(a) || ring(a, b) == abs_int(b) || ring(a, b) == abs_int(a + b),
{
    lemma_axial_distance_is_max(a, b, 0, 0);
}

/// Closed forms of the position, and of the rank of the way in, of a hex of
/// a ring.
pub(crate) proof fn lemma_region_facts(a: int, b: int)
    requires
        ring(a, b) >= 1,
    ensures
        ({
            let k = ring(a, b);
            let key = ring_key(a, b);
            let f = reach_rank(a, b);
            ||| (a == 0 && b == -k && key == 0 && f == 0)
            ||| (b == -k && 1 <= a <= k - 1 && key == 2 * a - 1 && f == 6 * (if a == 1 {
                0
            } else {
                2 * a - 3
            }) + 1)
            ||| (a + b == -k && -k < a < 0 && key == -2 * a && f == 6 * (if a == -1 {
                0
            } else {
                -2 * a - 2
            }) + 5)
            ||| (a == k && b == -k && key == 2 * k - 1 && f == 6 * (if k == 1 {
                0
            } else {
                2 * k - 3
            }) + 1)
            ||| (a == k && -k < b <= 0 && key == 3 * k - 1 + b && f == 6 * (if k == 1 {
                0
            } else {
                3 * k - 4 + b
            }) + 2)
            ||| (a + b == k && 0 <= a <= k - 1 && key == 4 * k - 1 - a && f == 6 * (if a == k
                - 1 {
                if k == 1 {
                    0
                } else {
                    3 * k - 4
                }
            } else {
                4 * k - 5 - a
            }) + 3)
            ||| (b == k && -k <= a <= -1 && key == 4 * k - 1 - a && f == 6 * (if k == 1 {
                0
            } else {
                4 * k - 6 - a
            }) + 4)
            ||| (a == -k && 0 <= b <= k - 1 && key == 6 * k - 1 - b && f == 6 * (if k == 1 {
                0
            } else {
                6 * k - 7 - b
            }) + 5)
        }),
{
    lemma_ring_is_max(a, b);
    lemma_ring_is_max(a, b + 1);
    lemma_ring_is_max(a - 1, b + 1);
    lemma_ring_is_max(a - 1, b);
    lemma_ring_is_max(a, b - 1);
    lemma_ring_is_max(a + 1, b - 1);
    lemma_ring_is_max(a + 1, b);
    let pa = parent_a(a, b);
    let pb = parent_b(a, b);
    lemma_ring_is_max(pa, pb);
}


/// Positions within a ring lie in `0..6k`, and distinct hexes of a ring
/// have distinct positions.
pub(crate) proof fn lemma_key_injective(a1: int, b1: int, a2: int, b2: int)
    requires
        ring(a1, b1) >= 1,
        ring(a2, b2) == ring(a1, b1),
    ensures
        0 <= ring_key(a1, b1) < 6 * ring(a1, b1),
        ring_key(a1, b1) == ring_key(a2, b2) ==> a1 == a2 && b1 == b2,
{
    lemma_region_facts(a1, b1);
    lemma_region_facts(a2, b2);
}

/// Along a ring, the search reaches the hexes in the order of their
/// positions: a later position is reached later.
pub(crate) proof fn lemma_rank_monotone(a1: int, b1: int, a2: int, b2: int)
    requires
        ring(a1, b1) >= 1,
        ring(a2, b2) == ring(a1, b1),
        ring_key(a1, b1) < ring_key(a2, b2),
    ensures
        reach_rank(a1, b1) < reach_rank(a2, b2),
{
    lemma_region_facts(a1, b1);
    lemma_region_facts(a2, b2);
}

/// Closed forms of the position of a hex within its ring.
pub(crate) proof fn lemma_key_facts(a: int, b: int)
    requires
        ring(a, b) >= 1,
    ensures
        ({
            let k = ring(a, b);
            let key = ring_key(a, b);
            ||| (a == 0 && b == -k && key == 0)
            ||| (b == -k && 1 <= a <= k - 1 && key == 2 * a - 1)
            ||| (a + b == -k && -k < a < 0 && key == -2 * a)
            ||| (a == k && -k <= b <= 0 && key == 3 * k - 1 + b)
            ||| (a + b == k && 0 <= a <= k - 1 && key == 4 * k - 1 - a)
            ||| (b == k && -k <= a <= -1 && key == 4 * k - 1 - a)
            ||| (a == -k && 0 <= b <= k - 1 && key == 6 * k - 1 - b)
        }),
{
    lemma_ring_is_max(a, b);
}

/// The hex through which the search reaches `(a, b)` lies one ring inwards,
/// one step away in direction `parent_dir`, and comes no later in its ring
/// than any other hex of that ring next to `(a, b)`.
#[verifier::rlimit(40)]
#[verifier::spinoff_prover]
pub(crate) proof fn lemma_parent_first(a: int, b: int, j: int)
    requires
        ring(a, b) >= 1,
        0 <= j < 6,
        back_closer(a, b, j),
    ensures
        0 <= parent_dir(a, b) < 6,
        back_closer(a, b, parent_dir(a, b)),
        ring_key(parent_a(a, b), parent_b(a, b)) <= ring_key(
            a - neighbor_offset(j).0,
            b - neighbor_offset(j).1,
        ),
        ring_key(parent_a(a, b), parent_b(a, b)) == ring_key(
            a - neighbor_offset(j).0,
            b - neighbor_offset(j).1,
        ) ==> j == parent_dir(a, b),
{
    lemma_ring_is_max(a, b);
    lemma_ring_is_max(a, b + 1);
    lemma_ring_is_max(a - 1, b + 1);
    lemma_ring_is_max(a - 1, b);
    lemma_ring_is_max(a, b - 1);
    lemma_ring_is_max(a + 1, b - 1);
    lemma_ring_is_max(a + 1, b);
    let pa = parent_a(a, b);
    let pb = parent_b(a, b);
    let na = a - neighbor_offset(j).0;
    let nb = b - neighbor_offset(j).1;
    assert(0 <= parent_dir(a, b) < 6);
    assert(back_closer(a, b, parent_dir(a, b)));
    if ring(a, b) >= 2 {
        lemma_key_facts(pa, pb);
        lemma_key_facts(na, nb);
        if j == 0 {
            assert(ring_key(pa, pb) <= ring_key(na, nb));
        } else if j == 1 {
            assert(ring_key(pa, pb) <= ring_key(na, nb));
        } else if j == 2 {
            assert(ring_key(pa, pb) <= ring_key(na, nb));
        } else if j == 3 {
            assert(ring_key(pa, pb) <= ring_key(na, nb));
        } else if j == 4 {
            assert(ring_key(pa, pb) <= ring_key(na, nb));
        } else {
            assert(ring_key(pa, pb) <= ring_key(na, nb));
        }
    }
}

/// Every hex of a ring has a direction whose step back leads one ring
/// inwards, and the way the search reaches it has a non-negative rank.
#[verifier::rlimit(40)]
#[verifier::spinoff_prover]
pub(crate) proof fn lemma_parent_exists(a: int, b: int)
    requires
        ring(a, b) >= 1,
    ensures
        0 <= parent_dir(a, b) < 6,
        back_closer(a, b, parent_dir(a, b)),
        ring(parent_a(a, b), parent_b(a, b)) == ring(a, b) - 1,
        reach_rank(a, b) >= 0,
{
    lemma_ring_is_max(a, b);
    lemma_ring_is_max(a, b + 1);
    lemma_ring_is_max(a - 1, b + 1);
    lemma_ring_is_max(a - 1, b);
    lemma_ring_is_max(a, b - 1);
    lemma_ring_is_max(a + 1, b - 1);
    lemma_ring_is_max(a + 1, b);
    assert(0 <= parent_dir(a, b) < 6 && back_closer(a, b, parent_dir(a, b)));
    assert(reach_rank(a, b) >= 0) by {
        lemma_region_facts(a, b);
    }
}

} // verus!
