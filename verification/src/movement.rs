//! Shortest paths between hexes, and the step-by-step walk of a unit along a
//! path.
use vstd::prelude::*;
use std::collections::HashMap;
use uuid::Uuid;
use crate::hexagon::{
    hex_distance, is_neighbor, law_distance_symmetric, law_distance_triangle,
    law_distance_zero_iff_equal, law_neighbor_closer, law_neighbors_are_distance_one,
    lemma_axial_distance_is_max, neighbor_of, neighbor_offset, neighbors_computable, HexCoord,
    hex_key, compute_hex_key, lemma_hex_key_injective_all,
};
use crate::search_order::{
    back_closer, lemma_key_injective, lemma_parent_exists, lemma_parent_first,
    lemma_rank_monotone, lemma_ring_is_max, parent_a, parent_b, parent_dir, reach_rank, ring,
    ring_key,
};

verus! {

broadcast use vstd::std_specs::hash::group_hash_axioms;

/// The `i`-th hex of `p` is one step from the next one.
pub open spec fn adjacent_at(p: Seq<HexCoord>, i: int) -> bool {
    hex_distance(p[i], p[i + 1]) == 1
}

/// A sequence of hexes in which each hex is one step from the next.
pub open spec fn steps_adjacent(p: Seq<HexCoord>) -> bool {
    forall|i: int| 0 <= i < p.len() - 1 ==> #[trigger] adjacent_at(p, i)
}

/// `p` is a walk across the grid from `start` to `end`, both included.
pub open spec fn is_hex_path(p: Seq<HexCoord>, start: HexCoord, end: HexCoord) -> bool {
    &&& p.len() >= 1
    &&& p[0] == start
    &&& p[p.len() - 1] == end
    &&& steps_adjacent(p)
}

/// `p` is a walk from `start` to `end` with no more steps than any other.
pub open spec fn is_shortest_hex_path(p: Seq<HexCoord>, start: HexCoord, end: HexCoord) -> bool {
    &&& is_hex_path(p, start, end)
    &&& p.len() == hex_distance(start, end) + 1
}

/// The search between `start` and `end` only touches coordinates that fit in
/// `i32`: every hex no farther from `start` than `end` is has all its
/// neighbors representable.
pub open spec fn path_search_in_range(start: HexCoord, end: HexCoord) -> bool {
    let d = hex_distance(start, end);
    start == end || {
        &&& i32::MIN < start.q - d
        &&& start.q + d < i32::MAX
        &&& i32::MIN < start.r - d
        &&& start.r + d < i32::MAX
    }
}

/// The hex one step back from `v` against direction `i` (0 to 5).
pub open spec fn step_back(v: HexCoord, i: int) -> HexCoord {
    HexCoord { q: (v.q - neighbor_offset(i).0) as i32, r: (v.r - neighbor_offset(i).1) as i32 }
}

/// Stepping back from `v` against direction `i` comes one step closer to
/// `start`.
pub open spec fn closer_back(start: HexCoord, v: HexCoord, i: int) -> bool {
    hex_distance(start, step_back(v, i)) == hex_distance(start, v) - 1
}

/// The direction through which the breadth-first search from `start`, which
/// tries the neighbors of each hex north, northeast, southeast, south,
/// southwest, northwest (directions 0 to 5), first reaches `v`: the
/// highest-numbered direction whose step back from `v` comes closer to
/// `start`.
pub open spec fn search_dir(start: HexCoord, v: HexCoord) -> int {
    if closer_back(start, v, 5) {
        5
    } else if closer_back(start, v, 4) {
        4
    } else if closer_back(start, v, 3) {
        3
    } else if closer_back(start, v, 2) {
        2
    } else if closer_back(start, v, 1) {
        1
    } else {
        0
    }
}

/// The hex from which the search from `start` first reaches `v`.
pub open spec fn search_parent(start: HexCoord, v: HexCoord) -> HexCoord {
    step_back(v, search_dir(start, v))
}

/// The walk of `n` steps that ends at `v` and follows the search: `v`'s
/// search parent, that hex's parent, and so on, in forward order.
pub open spec fn search_walk(start: HexCoord, v: HexCoord, n: nat) -> Seq<HexCoord>
    decreases n,
{
    if n == 0 {
        seq![v]
    } else {
        search_walk(start, search_parent(start, v), (n - 1) as nat).push(v)
    }
}

/// The path that the breadth-first search from `start` finds to `end`.
pub open spec fn search_path(start: HexCoord, end: HexCoord) -> Seq<HexCoord> {
    search_walk(start, end, hex_distance(start, end) as nat)
}

/// Offset of `v` from `start` along the first axis.
spec fn rel_a(start: HexCoord, v: HexCoord) -> int {
    v.q - start.q
}

/// Offset of `v` from `start` along the second axis.
spec fn rel_b(start: HexCoord, v: HexCoord) -> int {
    v.r - start.r
}

proof fn lemma_rel_ring(start: HexCoord, v: HexCoord)
    ensures
        ring(rel_a(start, v), rel_b(start, v)) == hex_distance(start, v),
{
    lemma_axial_distance_is_max(start.q as int, start.r as int, v.q as int, v.r as int);
    lemma_ring_is_max(rel_a(start, v), rel_b(start, v));
}

/// The search direction and parent of `v`, in offsets from `start`.
proof fn lemma_search_parent_rel(start: HexCoord, v: HexCoord)
    requires
        neighbors_computable(v),
    ensures
        search_dir(start, v) == parent_dir(rel_a(start, v), rel_b(start, v)),
        rel_a(start, search_parent(start, v)) == parent_a(rel_a(start, v), rel_b(start, v)),
        rel_b(start, search_parent(start, v)) == parent_b(rel_a(start, v), rel_b(start, v)),
        forall|i: int| 0 <= i < 6 ==> (#[trigger] closer_back(start, v, i) <==> back_closer(
            rel_a(start, v),
            rel_b(start, v),
            i,
        )),
{
    let a = rel_a(start, v);
    let b = rel_b(start, v);
    lemma_rel_ring(start, v);
    assert forall|i: int| 0 <= i < 6 implies (#[trigger] closer_back(start, v, i) <==> back_closer(
        a,
        b,
        i,
    )) by {
        lemma_rel_ring(start, step_back(v, i));
    }
    assert(closer_back(start, v, 5) == back_closer(a, b, 5));
    assert(closer_back(start, v, 4) == back_closer(a, b, 4));
    assert(closer_back(start, v, 3) == back_closer(a, b, 3));
    assert(closer_back(start, v, 2) == back_closer(a, b, 2));
    assert(closer_back(start, v, 1) == back_closer(a, b, 1));
}

/// Position of `v` within its ring around `start`, in the order the search
/// reaches that ring.
spec fn skey(start: HexCoord, v: HexCoord) -> int {
    ring_key(rel_a(start, v), rel_b(start, v))
}

/// Rank of the way the search first reaches `v`: the position of its search
/// parent in the inner ring, then the direction.
spec fn srank(start: HexCoord, v: HexCoord) -> int {
    reach_rank(rel_a(start, v), rel_b(start, v))
}

/// `u` comes before `v` in the search's queue: nearer to `start`, or as near
/// and earlier in its ring.
spec fn ordered_before(start: HexCoord, u: HexCoord, v: HexCoord) -> bool {
    ||| hex_distance(start, u) < hex_distance(start, v)
    ||| (hex_distance(start, u) == hex_distance(start, v) && skey(start, u) < skey(start, v))
}

/// Facts about the search parent of a hex other than `start`.
proof fn lemma_search_parent_facts(start: HexCoord, w: HexCoord)
    requires
        neighbors_computable(w),
        w != start,
    ensures
        0 <= search_dir(start, w) < 6,
        hex_distance(start, search_parent(start, w)) == hex_distance(start, w) - 1,
        neighbor_of(search_parent(start, w), search_dir(start, w)) == w,
        srank(start, w) == 6 * skey(start, search_parent(start, w)) + search_dir(start, w),
        srank(start, w) >= 0,
{
    lemma_rel_ring(start, w);
    law_distance_zero_iff_equal(start, w);
    lemma_search_parent_rel(start, w);
    lemma_parent_exists(rel_a(start, w), rel_b(start, w));
    lemma_rel_ring(start, search_parent(start, w));
}

/// Two hexes equally far from `start` with the same ring position are the
/// same hex.
proof fn lemma_skey_injective(start: HexCoord, u: HexCoord, v: HexCoord)
    requires
        hex_distance(start, u) == hex_distance(start, v),
        skey(start, u) == skey(start, v),
    ensures
        u == v,
{
    lemma_rel_ring(start, u);
    lemma_rel_ring(start, v);
    lemma_ring_is_max(rel_a(start, u), rel_b(start, u));
    lemma_ring_is_max(rel_a(start, v), rel_b(start, v));
    if hex_distance(start, u) >= 1 {
        lemma_key_injective(rel_a(start, u), rel_b(start, u), rel_a(start, v), rel_b(start, v));
    }
}

/// The rank of the way in identifies the hex: a hex one ring beyond `c`
/// reached with rank `6 * skey(c) + i` is `c`'s neighbor in direction `i`.
proof fn lemma_rank_identifies(start: HexCoord, c: HexCoord, w: HexCoord, i: int)
    requires
        neighbors_computable(w),
        hex_distance(start, w) == hex_distance(start, c) + 1,
        0 <= i < 6,
        srank(start, w) == 6 * skey(start, c) + i,
    ensures
        w == neighbor_of(c, i),
        search_parent(start, w) == c,
{
    law_distance_zero_iff_equal(start, c);
    law_distance_zero_iff_equal(start, w);
    lemma_search_parent_facts(start, w);
    let p = search_parent(start, w);
    assert(skey(start, p) == skey(start, c));
    lemma_skey_injective(start, p, c);
}

/// Law: no walk from `a` to `b` is shorter than the hex distance.
pub proof fn law_path_no_shorter_than_distance(p: Seq<HexCoord>, a: HexCoord, b: HexCoord)
    requires
        is_hex_path(p, a, b),
    ensures
        p.len() >= hex_distance(a, b) + 1,
    decreases p.len(),
{
    law_distance_zero_iff_equal(a, b);
    if p.len() > 1 {
        let rest = p.subrange(1, p.len() as int);
        assert forall|i: int| 0 <= i < rest.len() - 1 implies #[trigger] adjacent_at(rest, i) by {
            assert(adjacent_at(p, i + 1));
        }
        assert(adjacent_at(p, 0));
        law_path_no_shorter_than_distance(rest, p[1], b);
        law_distance_triangle(a, p[1], b);
    }
}

fn hex_distance_i64(a: HexCoord, b: HexCoord) -> (d: i64)
    ensures
        d == hex_distance(a, b),
{
    proof {
        lemma_axial_distance_is_max(a.q as int, a.r as int, b.q as int, b.r as int);
    }
    let dq: i64 = a.q as i64 - b.q as i64;
    let dr: i64 = a.r as i64 - b.r as i64;
    let ds: i64 = dq + dr;
    let x: i64 = if dq < 0 { -dq } else { dq };
    let y: i64 = if dr < 0 { -dr } else { dr };
    let z: i64 = if ds < 0 { -ds } else { ds };
    (x + y + z) / 2
}

/// Hexes no farther from `start` than `d` lie in the box of half-width `d`.
proof fn lemma_region_in_box(start: HexCoord, v: HexCoord, d: int)
    requires
        hex_distance(start, v) <= d,
    ensures
        start.q - d <= v.q <= start.q + d,
        start.r - d <= v.r <= start.r + d,
{
    lemma_axial_distance_is_max(start.q as int, start.r as int, v.q as int, v.r as int);
}

/// Position of a hex of the box of half-width `d` around `start` in a
/// row-major numbering of that box.
spec fn box_index(start: HexCoord, d: int, v: HexCoord) -> int {
    (v.q - (start.q - d)) * (2 * d + 1) + (v.r - (start.r - d))
}

proof fn lemma_box_index_bounds(start: HexCoord, d: int, v: HexCoord)
    requires
        d >= 0,
        start.q - d <= v.q <= start.q + d,
        start.r - d <= v.r <= start.r + d,
    ensures
        0 <= box_index(start, d, v) < (2 * d + 1) * (2 * d + 1),
{
    let x = v.q - (start.q - d);
    let y = v.r - (start.r - d);
    let w = 2 * d + 1;
    assert(0 <= x * w + y < w * w) by (nonlinear_arith)
        requires
            0 <= x < w,
            0 <= y < w,
    ;
}

proof fn lemma_box_index_injective(start: HexCoord, d: int, u: HexCoord, v: HexCoord)
    requires
        d >= 0,
        start.q - d <= v.q <= start.q + d,
        start.r - d <= v.r <= start.r + d,
        start.q - d <= u.q <= start.q + d,
        start.r - d <= u.r <= start.r + d,
        box_index(start, d, u) == box_index(start, d, v),
    ensures
        u == v,
{
    let xu = u.q - (start.q - d);
    let yu = u.r - (start.r - d);
    let xv = v.q - (start.q - d);
    let yv = v.r - (start.r - d);
    let w = 2 * d + 1;
    assert(xu == xv && yu == yv) by (nonlinear_arith)
        requires
            0 <= xu < w,
            0 <= yu < w,
            0 <= xv < w,
            0 <= yv < w,
            xu * w + yu == xv * w + yv,
    ;
}

/// Distinct hexes of the box of half-width `d` number at most its area.
proof fn lemma_distinct_in_box_bounded(s: Seq<HexCoord>, start: HexCoord, d: int)
    requires
        d >= 0,
        s.no_duplicates(),
        forall|i: int| 0 <= i < s.len() ==> hex_distance(start, #[trigger] s[i]) <= d,
    ensures
        s.len() <= (2 * d + 1) * (2 * d + 1),
{
    let f = |v: HexCoord| box_index(start, d, v);
    let m = s.map_values(f);
    assert forall|i: int| 0 <= i < s.len() implies 0 <= #[trigger] m[i] < (2 * d + 1) * (2 * d
        + 1) by {
        lemma_region_in_box(start, s[i], d);
        lemma_box_index_bounds(start, d, s[i]);
    }
    assert(m.no_duplicates()) by {
        assert forall|i: int, j: int| 0 <= i < m.len() && 0 <= j < m.len() && i != j implies m[i]
            != m[j] by {
            lemma_region_in_box(start, s[i], d);
            lemma_region_in_box(start, s[j], d);
            if m[i] == m[j] {
                lemma_box_index_injective(start, d, s[i], s[j]);
            }
        }
    }
    m.unique_seq_to_set();
    let r = Set::<int>::range(0, (2 * d + 1) * (2 * d + 1));
    vstd::set_lib::range_set_properties::<int>(0, (2 * d + 1) * (2 * d + 1));
    assert(m.to_set().subset_of(r)) by {
        assert forall|x: int| m.to_set().contains(x) implies r.contains(x) by {
            let i = choose|i: int| 0 <= i < m.len() && m[i] == x;
            assert(0 <= m[i] < (2 * d + 1) * (2 * d + 1));
        }
    }
    vstd::set_lib::lemma_len_subset(m.to_set(), r);
}


/// Every hex of the search region has all its neighbors representable.
proof fn lemma_region_computable(start: HexCoord, end: HexCoord, v: HexCoord)
    requires
        path_search_in_range(start, end),
        start != end,
        hex_distance(start, v) <= hex_distance(start, end),
    ensures
        neighbors_computable(v),
{
    lemma_region_in_box(start, v, hex_distance(start, end));
}

/// `v` has been reached by the search.
spec fn reached(m: Map<u64, HexCoord>, v: HexCoord) -> bool {
    m.contains_key(hex_key(v))
}

/// The recorded predecessor of `v` has been reached, is one step from `v`
/// and one step closer to `start`.
spec fn parent_ok(start: HexCoord, m: Map<u64, HexCoord>, v: HexCoord) -> bool {
    let p = m[hex_key(v)];
    &&& reached(m, p)
    &&& hex_distance(p, v) == 1
    &&& hex_distance(start, p) == hex_distance(start, v) - 1
}

/// State of the breadth-first search: the queue holds every reached hex
/// once, in order of distance from `start`; the hexes before `head` have been
/// expanded, and none of them is `end`.
#[verifier::opaque]
spec fn search_inv(
    start: HexCoord,
    end: HexCoord,
    d: int,
    q: Seq<HexCoord>,
    head: int,
    m: Map<u64, HexCoord>,
) -> bool {
    &&& 1 <= q.len()
    &&& 0 <= head <= q.len()
    &&& q[0] == start
    &&& q.no_duplicates()
    &&& forall|i: int| 0 <= i < q.len() ==> hex_distance(start, #[trigger] q[i]) <= d
    &&& forall|v: HexCoord| #[trigger] reached(m, v) <==> q.contains(v)
    &&& m[hex_key(start)] == start
    &&& forall|i: int| 1 <= i < q.len() ==> #[trigger] parent_ok(start, m, q[i])
    &&& forall|i: int, j: int|
        0 <= i <= j < q.len() ==> #[trigger] hex_distance(start, q[i]) <= #[trigger] hex_distance(
            start,
            q[j],
        )
    &&& head < q.len() ==> hex_distance(start, q[q.len() - 1]) <= hex_distance(start, q[head]) + 1
    &&& forall|i: int, k: int|
        0 <= i < head && 0 <= k < 6 && hex_distance(start, #[trigger] neighbor_of(q[i], k)) <= d
            ==> q.contains(neighbor_of(q[i], k))
    &&& forall|i: int| 0 <= i < head ==> #[trigger] q[i] != end
}

/// State while the hex `q[head]` is being expanded: its first `i` neighbors
/// have been handled, and every hex no farther from `start` than it has
/// been reached.
#[verifier::opaque]
spec fn expand_inv(
    start: HexCoord,
    end: HexCoord,
    d: int,
    q: Seq<HexCoord>,
    head: int,
    m: Map<u64, HexCoord>,
    i: int,
) -> bool {
    &&& search_inv(start, end, d, q, head, m)
    &&& 0 <= head < q.len()
    &&& q[head] != end
    &&& 0 <= i <= 6
    &&& forall|w: HexCoord|
        hex_distance(start, w) <= hex_distance(start, q[head]) ==> #[trigger] reached(m, w)
    &&& forall|k: int|
        0 <= k < i && hex_distance(start, #[trigger] neighbor_of(q[head], k)) <= d ==> q.contains(
            neighbor_of(q[head], k),
        )
}

/// The queue is in the order the search reaches hexes (by distance from
/// `start`, then by position in the ring), and each reached hex other than
/// `start` was reached from its search parent.
#[verifier::opaque]
spec fn order_inv(start: HexCoord, q: Seq<HexCoord>, m: Map<u64, HexCoord>) -> bool {
    &&& forall|i: int, j: int|
        0 <= i < j < q.len() ==> #[trigger] ordered_before(start, q[i], q[j])
    &&& forall|i: int| 1 <= i < q.len() ==> m[hex_key(#[trigger] q[i])] == search_parent(start, q[i])
}

/// The hexes one ring beyond `q[head]` (and within `d` of `start`) that have
/// been reached are exactly those reached with a rank below `bound`.
#[verifier::opaque]
spec fn frontier_inv(
    start: HexCoord,
    d: int,
    q: Seq<HexCoord>,
    head: int,
    m: Map<u64, HexCoord>,
    bound: int,
) -> bool {
    forall|w: HexCoord|
        hex_distance(start, w) == hex_distance(start, q[head]) + 1 && hex_distance(start, w) <= d
            ==> (#[trigger] reached(m, w) <==> srank(start, w) < bound)
}

proof fn lemma_order_start(start: HexCoord, end: HexCoord, q: Seq<HexCoord>, m: Map<u64, HexCoord>)
    requires
        start != end,
        path_search_in_range(start, end),
        q == seq![start],
        m == Map::<u64, HexCoord>::empty().insert(hex_key(start), start),
    ensures
        order_inv(start, q, m),
        frontier_inv(start, hex_distance(start, end), q, 0, m, 6 * skey(start, q[0])),
{
    reveal(order_inv);
    reveal(frontier_inv);
    lemma_hex_key_injective_all();
    law_distance_zero_iff_equal(start, start);
    lemma_rel_ring(start, start);
    assert(skey(start, start) == 0);
    assert forall|w: HexCoord|
        hex_distance(start, w) == hex_distance(start, q[0]) + 1 && hex_distance(start, w)
            <= hex_distance(start, end) implies (#[trigger] reached(m, w) <==> srank(start, w) < 6
        * skey(start, q[0])) by {
        law_distance_zero_iff_equal(start, w);
        lemma_region_computable(start, end, w);
        lemma_search_parent_facts(start, w);
        if reached(m, w) {
            assert(hex_key(w) == hex_key(start));
        }
    }
}

/// Skipping the neighbor of `q[head]` in direction `i` (already reached, or
/// too far) keeps the frontier exact.
proof fn lemma_frontier_skip(
    start: HexCoord,
    end: HexCoord,
    q: Seq<HexCoord>,
    head: int,
    m: Map<u64, HexCoord>,
    i: int,
)
    requires
        path_search_in_range(start, end),
        start != end,
        0 <= head < q.len(),
        0 <= i < 6,
        neighbors_computable(q[head]),
        hex_distance(start, q[head]) <= hex_distance(start, end),
        frontier_inv(start, hex_distance(start, end), q, head, m, 6 * skey(start, q[head]) + i),
        hex_distance(start, neighbor_of(q[head], i)) <= hex_distance(start, end) ==> reached(
            m,
            neighbor_of(q[head], i),
        ),
    ensures
        frontier_inv(start, hex_distance(start, end), q, head, m, 6 * skey(start, q[head]) + i + 1),
{
    reveal(frontier_inv);
    let c = q[head];
    let d = hex_distance(start, end);
    assert forall|w: HexCoord|
        hex_distance(start, w) == hex_distance(start, c) + 1 && hex_distance(start, w) <= d implies (
        #[trigger] reached(m, w) <==> srank(start, w) < 6 * skey(start, c) + i + 1) by {
        if srank(start, w) == 6 * skey(start, c) + i {
            lemma_region_computable(start, end, w);
            lemma_rank_identifies(start, c, w, i);
        }
    }
}

/// Pushing the unreached neighbor `n` of `q[head]` in direction `i`: the
/// search reaches `n` from `q[head]`, `n` comes after every queued hex, and
/// the frontier stays exact.
#[verifier::rlimit(40)]
#[verifier::spinoff_prover]
proof fn lemma_push_facts(
    start: HexCoord,
    end: HexCoord,
    q: Seq<HexCoord>,
    head: int,
    m: Map<u64, HexCoord>,
    i: int,
)
    requires
        path_search_in_range(start, end),
        start != end,
        expand_inv(start, end, hex_distance(start, end), q, head, m, i),
        order_inv(start, q, m),
        frontier_inv(start, hex_distance(start, end), q, head, m, 6 * skey(start, q[head]) + i),
        0 <= i < 6,
        neighbors_computable(q[head]),
        hex_distance(start, neighbor_of(q[head], i)) <= hex_distance(start, end),
        !reached(m, neighbor_of(q[head], i)),
    ensures
        order_inv(
            start,
            q.push(neighbor_of(q[head], i)),
            m.insert(hex_key(neighbor_of(q[head], i)), q[head]),
        ),
        frontier_inv(
            start,
            hex_distance(start, end),
            q.push(neighbor_of(q[head], i)),
            head,
            m.insert(hex_key(neighbor_of(q[head], i)), q[head]),
            6 * skey(start, q[head]) + i + 1,
        ),
{
    reveal(expand_inv);
    reveal(search_inv);
    reveal(order_inv);
    reveal(frontier_inv);
    lemma_hex_key_injective_all();
    let d = hex_distance(start, end);
    let c = q[head];
    let n = neighbor_of(c, i);
    let q1 = q.push(n);
    let m1 = m.insert(hex_key(n), c);
    let bound = 6 * skey(start, c) + i;
    // n lies one ring beyond c
    assert(is_neighbor(c, n));
    law_neighbors_are_distance_one(c, n);
    law_distance_triangle(start, c, n);
    assert(hex_distance(start, n) == hex_distance(start, c) + 1);
    law_distance_zero_iff_equal(start, n);
    lemma_region_computable(start, end, n);
    // the search reaches n from c, with rank bound
    lemma_rel_ring(start, c);
    lemma_rel_ring(start, n);
    lemma_search_parent_rel(start, n);
    assert(back_closer(rel_a(start, n), rel_b(start, n), i));
    lemma_parent_first(rel_a(start, n), rel_b(start, n), i);
    lemma_search_parent_facts(start, n);
    assert(srank(start, n) >= bound);
    assert(srank(start, n) == bound);
    lemma_rank_identifies(start, c, n, i);
    // n comes after every queued hex
    assert forall|j: int| 0 <= j < q.len() implies #[trigger] ordered_before(start, q[j], n) by {
        assert(hex_distance(start, q[j]) <= hex_distance(start, q[q.len() - 1]));
        assert(q.contains(q[j]));
        if hex_distance(start, q[j]) == hex_distance(start, n) {
            assert(reached(m, q[j]));
            assert(srank(start, q[j]) < bound);
            if skey(start, q[j]) == skey(start, n) {
                lemma_skey_injective(start, q[j], n);
            } else if skey(start, n) < skey(start, q[j]) {
                lemma_rel_ring(start, q[j]);
                lemma_rank_monotone(rel_a(start, n), rel_b(start, n), rel_a(start, q[j]), rel_b(start, q[j]));
            }
        }
    }
    assert forall|a: int, b: int| 0 <= a < b < q1.len() implies #[trigger] ordered_before(
        start,
        q1[a],
        q1[b],
    ) by {
        if b < q.len() {
            assert(ordered_before(start, q[a], q[b]));
        } else {
            assert(q1[a] == q[a]);
            assert(ordered_before(start, q[a], n));
        }
    }
    assert forall|j: int| 1 <= j < q1.len() implies m1[hex_key(#[trigger] q1[j])] == search_parent(
        start,
        q1[j],
    ) by {
        if j < q.len() {
            assert(q1[j] == q[j]);
            assert(q.contains(q[j]));
            assert(q[j] != n);
        }
    }
    // the frontier grows by n
    assert forall|w: HexCoord|
        hex_distance(start, w) == hex_distance(start, q1[head]) + 1 && hex_distance(start, w) <= d
            implies (#[trigger] reached(m1, w) <==> srank(start, w) < bound + 1) by {
        assert(q1[head] == c);
        if w == n {
            assert(reached(m1, w));
        } else {
            assert(hex_key(w) != hex_key(n));
            assert(reached(m1, w) == reached(m, w));
            assert(reached(m, w) <==> srank(start, w) < bound);
            if srank(start, w) == bound {
                lemma_region_computable(start, end, w);
                lemma_rank_identifies(start, c, w, i);
            }
        }
    }
}

/// When the next queued hex `q[head + 1]` is as far from `start` as
/// `q[head]`, no hex one ring further out is reached with a rank between the
/// two.
proof fn lemma_no_rank_between(
    start: HexCoord,
    end: HexCoord,
    q: Seq<HexCoord>,
    head: int,
    w: HexCoord,
)
    requires
        path_search_in_range(start, end),
        start != end,
        0 <= head,
        head + 1 < q.len(),
        hex_distance(start, q[head]) == hex_distance(start, q[head + 1]),
        forall|i: int, j: int| 0 <= i < j < q.len() ==> #[trigger] ordered_before(start, q[i], q[j]),
        forall|v: HexCoord| hex_distance(start, v) <= hex_distance(start, q[head]) ==> #[trigger] q.contains(v),
        hex_distance(start, w) == hex_distance(start, q[head]) + 1,
        hex_distance(start, w) <= hex_distance(start, end),
    ensures
        !(6 * skey(start, q[head]) + 6 <= srank(start, w) < 6 * skey(start, q[head + 1])),
{
    lemma_region_computable(start, end, w);
    law_distance_zero_iff_equal(start, w);
    lemma_search_parent_facts(start, w);
    let p = search_parent(start, w);
    assert(q.contains(p));
    let j = choose|j: int| 0 <= j < q.len() && q[j] == p;
    if j > head + 1 {
        assert(ordered_before(start, q[head + 1], q[j]));
    } else if j < head {
        assert(ordered_before(start, q[j], q[head]));
    }
}

/// When the next queued hex `q[head + 1]` is one ring further out than
/// `q[head]`, every hex two rings out is reached with a rank no smaller than
/// that of the ways out of `q[head + 1]`.
#[verifier::rlimit(40)]
#[verifier::spinoff_prover]
proof fn lemma_rank_beyond_next_ring(
    start: HexCoord,
    end: HexCoord,
    q: Seq<HexCoord>,
    head: int,
    w: HexCoord,
)
    requires
        path_search_in_range(start, end),
        start != end,
        0 <= head,
        head + 1 < q.len(),
        hex_distance(start, q[head + 1]) == hex_distance(start, q[head]) + 1,
        forall|i: int, j: int|
            0 <= i <= j < q.len() ==> #[trigger] hex_distance(start, q[i]) <= #[trigger] hex_distance(
                start,
                q[j],
            ),
        forall|i: int, j: int| 0 <= i < j < q.len() ==> #[trigger] ordered_before(start, q[i], q[j]),
        forall|v: HexCoord| hex_distance(start, v) <= hex_distance(start, q[head]) ==> #[trigger] q.contains(v),
        forall|i: int, k: int|
            0 <= i <= head && 0 <= k < 6 && hex_distance(start, #[trigger] neighbor_of(q[i], k))
                <= hex_distance(start, end) ==> q.contains(neighbor_of(q[i], k)),
        hex_distance(start, w) == hex_distance(start, q[head]) + 2,
        hex_distance(start, w) <= hex_distance(start, end),
    ensures
        srank(start, w) >= 6 * skey(start, q[head + 1]),
{
    let l = hex_distance(start, q[head]);
    lemma_region_computable(start, end, w);
    law_distance_zero_iff_equal(start, w);
    lemma_search_parent_facts(start, w);
    let p = search_parent(start, w);
    lemma_region_computable(start, end, p);
    law_distance_zero_iff_equal(start, p);
    lemma_search_parent_facts(start, p);
    let pp = search_parent(start, p);
    assert(q.contains(p)) by {
        assert(q.contains(pp));
        let jj = choose|jj: int| 0 <= jj < q.len() && q[jj] == pp;
        if jj > head {
            assert(hex_distance(start, q[head + 1]) <= hex_distance(start, q[jj]));
        }
        assert(neighbor_of(q[jj], search_dir(start, p)) == p);
    }
    assert(skey(start, q[head + 1]) <= skey(start, p)) by {
        let j2 = choose|j2: int| 0 <= j2 < q.len() && q[j2] == p;
        if j2 <= head {
            assert(hex_distance(start, q[j2]) <= hex_distance(start, q[head]));
        }
        if j2 > head + 1 {
            assert(ordered_before(start, q[head + 1], q[j2]));
        }
    }
}

/// After `q[head]` is expanded, the frontier is exact for the next hex of
/// the queue.
#[verifier::rlimit(40)]
#[verifier::spinoff_prover]
proof fn lemma_frontier_next(
    start: HexCoord,
    end: HexCoord,
    q: Seq<HexCoord>,
    head: int,
    m: Map<u64, HexCoord>,
)
    requires
        path_search_in_range(start, end),
        start != end,
        expand_inv(start, end, hex_distance(start, end), q, head, m, 6),
        order_inv(start, q, m),
        frontier_inv(start, hex_distance(start, end), q, head, m, 6 * skey(start, q[head]) + 6),
        head + 1 < q.len(),
    ensures
        frontier_inv(start, hex_distance(start, end), q, head + 1, m, 6 * skey(start, q[head + 1])),
{
    reveal(expand_inv);
    reveal(search_inv);
    reveal(order_inv);
    reveal(frontier_inv);
    let d = hex_distance(start, end);
    let c = q[head];
    let c2 = q[head + 1];
    let l = hex_distance(start, c);
    assert(ordered_before(start, c, c2));
    assert(hex_distance(start, c2) <= hex_distance(start, q[q.len() - 1]));
    assert forall|v: HexCoord| hex_distance(start, v) <= hex_distance(start, q[head]) implies #[trigger] q.contains(v) by {
        assert(reached(m, v));
    }
    if hex_distance(start, c2) == l {
        assert forall|w: HexCoord|
            hex_distance(start, w) == hex_distance(start, q[head + 1]) + 1 && hex_distance(start, w) <= d
                implies (#[trigger] reached(m, w) <==> srank(start, w) < 6 * skey(start, q[head + 1])) by {
            assert(reached(m, w) <==> srank(start, w) < 6 * skey(start, c) + 6);
            lemma_no_rank_between(start, end, q, head, w);
        }
    } else {
        assert forall|i: int, k: int|
            0 <= i <= head && 0 <= k < 6 && hex_distance(start, #[trigger] neighbor_of(q[i], k))
                <= d implies q.contains(neighbor_of(q[i], k)) by {
        }
        assert forall|w: HexCoord|
            hex_distance(start, w) == hex_distance(start, q[head + 1]) + 1 && hex_distance(start, w) <= d
                implies (#[trigger] reached(m, w) <==> srank(start, w) < 6 * skey(start, q[head + 1])) by {
            if reached(m, w) {
                let j = choose|j: int| 0 <= j < q.len() && q[j] == w;
                assert(hex_distance(start, q[j]) <= hex_distance(start, q[q.len() - 1]));
            }
            lemma_rank_beyond_next_ring(start, end, q, head, w);
        }
    }
}

proof fn lemma_search_start(start: HexCoord, end: HexCoord, q: Seq<HexCoord>, m: Map<u64, HexCoord>)
    requires
        start != end,
        q == seq![start],
        m == Map::<u64, HexCoord>::empty().insert(hex_key(start), start),
    ensures
        search_inv(start, end, hex_distance(start, end), q, 0, m),
{
    reveal(search_inv);
    lemma_hex_key_injective_all();
    law_distance_zero_iff_equal(start, start);
    law_distance_zero_iff_equal(start, end);
    assert forall|v: HexCoord| #[trigger] reached(m, v) <==> q.contains(v) by {
        if reached(m, v) {
            assert(hex_key(v) == hex_key(start));
            assert(q[0] == start);
        }
    }
}

/// Every hex of the region closer to `start` than the first unexpanded hex
/// (every hex of the region, once all are expanded) has been reached.
proof fn lemma_layers_reached(
    start: HexCoord,
    end: HexCoord,
    q: Seq<HexCoord>,
    head: int,
    m: Map<u64, HexCoord>,
    k: int,
)
    requires
        path_search_in_range(start, end),
        start != end,
        search_inv(start, end, hex_distance(start, end), q, head, m),
        0 <= k,
        head < q.len() ==> k <= hex_distance(start, q[head]),
        head == q.len() ==> k <= hex_distance(start, end),
    ensures
        forall|w: HexCoord| hex_distance(start, w) == k ==> #[trigger] reached(m, w),
    decreases k,
{
    reveal(search_inv);
    let d = hex_distance(start, end);
    if head < q.len() {
        assert(hex_distance(start, q[head]) <= d);
    }
    if k == 0 {
        assert forall|w: HexCoord| hex_distance(start, w) == k implies #[trigger] reached(m, w) by {
            law_distance_zero_iff_equal(start, w);
            assert(q[0] == start);
        }
    } else {
        lemma_layers_reached(start, end, q, head, m, k - 1);
        assert forall|w: HexCoord| hex_distance(start, w) == k implies #[trigger] reached(m, w) by {
            law_distance_zero_iff_equal(start, w);
            lemma_region_computable(start, end, w);
            let i = law_neighbor_closer(w, start);
            let u = neighbor_of(w, i);
            law_distance_symmetric(u, start);
            law_distance_symmetric(w, start);
            assert(reached(m, u));
            let j = choose|j: int| 0 <= j < q.len() && q[j] == u;
            if j >= head {
                assert(hex_distance(start, q[head]) <= hex_distance(start, q[j]));
            }
            assert(j < head);
            lemma_region_computable(start, end, u);
            assert(is_neighbor(w, u));
            law_neighbors_are_distance_one(w, u);
            law_distance_symmetric(w, u);
            law_neighbors_are_distance_one(u, w);
            let kk = choose|kk: int| 0 <= kk < 6 && w == #[trigger] neighbor_of(u, kk);
            assert(hex_distance(start, neighbor_of(q[j], kk)) <= d);
        }
    }
}

proof fn lemma_expand_begin(
    start: HexCoord,
    end: HexCoord,
    q: Seq<HexCoord>,
    head: int,
    m: Map<u64, HexCoord>,
)
    requires
        path_search_in_range(start, end),
        start != end,
        search_inv(start, end, hex_distance(start, end), q, head, m),
        0 <= head < q.len(),
        q[head] != end,
    ensures
        expand_inv(start, end, hex_distance(start, end), q, head, m, 0),
        hex_distance(start, q[head]) <= hex_distance(start, end),
        neighbors_computable(q[head]),
{
    reveal(expand_inv);
    let current = q[head];
    assert(hex_distance(start, current) <= hex_distance(start, end)) by {
        reveal(search_inv);
    }
    lemma_region_computable(start, end, current);
    assert forall|w: HexCoord| hex_distance(start, w) <= hex_distance(start, current) implies #[trigger] reached(
        m,
        w,
    ) by {
        law_distance_zero_iff_equal(start, w);
        lemma_layers_reached(start, end, q, head, m, hex_distance(start, w));
    }
}

proof fn lemma_expand_skip(
    start: HexCoord,
    end: HexCoord,
    q: Seq<HexCoord>,
    head: int,
    m: Map<u64, HexCoord>,
    i: int,
)
    requires
        expand_inv(start, end, hex_distance(start, end), q, head, m, i),
        i < 6,
        hex_distance(start, neighbor_of(q[head], i)) <= hex_distance(start, end) ==> reached(
            m,
            neighbor_of(q[head], i),
        ),
    ensures
        expand_inv(start, end, hex_distance(start, end), q, head, m, i + 1),
{
    reveal(expand_inv);
    reveal(search_inv);
}

#[verifier::rlimit(20)]
#[verifier::spinoff_prover]
#[verifier::spinoff_prover]
proof fn lemma_expand_push(
    start: HexCoord,
    end: HexCoord,
    q: Seq<HexCoord>,
    head: int,
    m: Map<u64, HexCoord>,
    i: int,
)
    requires
        path_search_in_range(start, end),
        start != end,
        expand_inv(start, end, hex_distance(start, end), q, head, m, i),
        i < 6,
        neighbors_computable(q[head]),
        hex_distance(start, neighbor_of(q[head], i)) <= hex_distance(start, end),
        !reached(m, neighbor_of(q[head], i)),
    ensures
        expand_inv(
            start,
            end,
            hex_distance(start, end),
            q.push(neighbor_of(q[head], i)),
            head,
            m.insert(hex_key(neighbor_of(q[head], i)), q[head]),
            i + 1,
        ),
        q.push(neighbor_of(q[head], i)).len() <= (2 * hex_distance(start, end) + 1) * (2
            * hex_distance(start, end) + 1),
{
    reveal(expand_inv);
    reveal(search_inv);
    lemma_hex_key_injective_all();
    let d = hex_distance(start, end);
    let current = q[head];
    let n = neighbor_of(current, i);
    let q1 = q.push(n);
    let m1 = m.insert(hex_key(n), current);
    assert(is_neighbor(current, n));
    law_neighbors_are_distance_one(current, n);
    law_distance_triangle(start, current, n);
    assert(!q.contains(n));
    assert(hex_distance(start, n) == hex_distance(start, current) + 1);
    assert forall|v: HexCoord| #[trigger] reached(m1, v) <==> q1.contains(v) by {
        if q1.contains(v) {
            let j = choose|j: int| 0 <= j < q1.len() && q1[j] == v;
            if j < q.len() {
                assert(q[j] == v);
                assert(q.contains(v));
                assert(reached(m, v));
            } else {
                assert(v == n);
            }
        }
        if reached(m1, v) {
            if hex_key(v) == hex_key(n) {
                assert(v == n);
                assert(q1[q.len() as int] == n);
            } else {
                assert(reached(m, v));
                assert(q.contains(v));
                let j = choose|j: int| 0 <= j < q.len() && q[j] == v;
                assert(q1[j] == v);
            }
        }
    }
    assert(q1.no_duplicates()) by {
        assert forall|a: int, b: int| 0 <= a < q1.len() && 0 <= b < q1.len() && a != b implies q1[a]
            != q1[b] by {
            if b == q.len() as int {
                assert(q1[a] == q[a]);
                assert(q.contains(q[a]));
            }
            if a == q.len() as int {
                assert(q1[b] == q[b]);
                assert(q.contains(q[b]));
            }
        }
    }
    assert(hex_key(start) != hex_key(n));
    assert forall|j: int| 1 <= j < q1.len() implies #[trigger] parent_ok(start, m1, q1[j]) by {
        if j < q.len() {
            assert(q1[j] == q[j]);
            assert(parent_ok(start, m, q[j]));
            assert(q[j] != n);
            assert(hex_key(q[j]) != hex_key(n));
            let p = m[hex_key(q[j])];
            assert(reached(m, p));
            assert(reached(m1, p));
        } else {
            assert(q1[j] == n);
            assert(q.contains(current));
            assert(reached(m, current));
            assert(reached(m1, current));
        }
    }
    assert forall|a: int, b: int| 0 <= a <= b < q1.len() implies #[trigger] hex_distance(
        start,
        q1[a],
    ) <= #[trigger] hex_distance(start, q1[b]) by {
        if b == q.len() as int && a < b {
            assert(q1[a] == q[a]);
            assert(hex_distance(start, q[a]) <= hex_distance(start, q[q.len() - 1]));
        } else if b < q.len() as int {
            assert(q1[a] == q[a]);
            assert(q1[b] == q[b]);
        }
    }
    assert forall|a: int, k: int|
        0 <= a < head && 0 <= k < 6 && hex_distance(start, #[trigger] neighbor_of(q1[a], k)) <= d
            implies q1.contains(neighbor_of(q1[a], k)) by {
        assert(q1[a] == q[a]);
        assert(q.contains(neighbor_of(q[a], k)));
        let j = choose|j: int| 0 <= j < q.len() && q[j] == neighbor_of(q[a], k);
        assert(q1[j] == q[j]);
    }
    assert forall|k: int|
        0 <= k < i + 1 && hex_distance(start, #[trigger] neighbor_of(q1[head], k)) <= d implies q1.contains(
        neighbor_of(q1[head], k),
    ) by {
        assert(q1[head] == current);
        if k < i {
            let j = choose|j: int| 0 <= j < q.len() && q[j] == neighbor_of(current, k);
            assert(q1[j] == q[j]);
        } else {
            assert(q1[q.len() as int] == n);
        }
    }
    assert forall|w: HexCoord| hex_distance(start, w) <= hex_distance(start, q1[head]) implies #[trigger] reached(
        m1,
        w,
    ) by {
        assert(q1[head] == current);
        assert(reached(m, w));
    }
    assert forall|j: int| 0 <= j < q1.len() implies hex_distance(start, #[trigger] q1[j]) <= d by {
        if j < q.len() {
            assert(q1[j] == q[j]);
        }
    }
    assert forall|j: int| 0 <= j < head implies #[trigger] q1[j] != end by {
        assert(q1[j] == q[j]);
    }
    assert(q1[0] == start);
    assert(q1[head] == current);
    if head < q1.len() {
        assert(hex_distance(start, q1[q1.len() - 1]) <= hex_distance(start, q1[head]) + 1);
    }
    assert(search_inv(start, end, d, q1, head, m1));
    lemma_distinct_in_box_bounded(q1, start, d);
}

proof fn lemma_expand_end(
    start: HexCoord,
    end: HexCoord,
    q: Seq<HexCoord>,
    head: int,
    m: Map<u64, HexCoord>,
)
    requires
        expand_inv(start, end, hex_distance(start, end), q, head, m, 6),
    ensures
        search_inv(start, end, hex_distance(start, end), q, head + 1, m),
{
    reveal(expand_inv);
    reveal(search_inv);
    let current = q[head];
    assert forall|a: int, k: int|
        0 <= a < head + 1 && 0 <= k < 6 && hex_distance(start, #[trigger] neighbor_of(q[a], k))
            <= hex_distance(start, end) implies q.contains(neighbor_of(q[a], k)) by {
    }
    if head + 1 < q.len() {
        assert(hex_distance(start, q[head]) <= hex_distance(start, q[head + 1]));
    }
}

/// The search never runs out of hexes before it expands `end`.
proof fn lemma_search_not_exhausted(
    start: HexCoord,
    end: HexCoord,
    q: Seq<HexCoord>,
    head: int,
    m: Map<u64, HexCoord>,
)
    requires
        path_search_in_range(start, end),
        start != end,
        search_inv(start, end, hex_distance(start, end), q, head, m),
    ensures
        head < q.len(),
{
    reveal(search_inv);
    if head == q.len() {
        lemma_layers_reached(start, end, q, head, m, hex_distance(start, end));
        assert(reached(m, end));
        let j = choose|j: int| 0 <= j < q.len() && q[j] == end;
        assert(q[j] != end);
    }
}

proof fn lemma_search_facts(
    start: HexCoord,
    end: HexCoord,
    q: Seq<HexCoord>,
    head: int,
    m: Map<u64, HexCoord>,
)
    requires
        search_inv(start, end, hex_distance(start, end), q, head, m),
    ensures
        0 <= head <= q.len(),
        q.len() >= 1,
        forall|v: HexCoord| #[trigger] reached(m, v) <==> q.contains(v),
        forall|i: int| 1 <= i < q.len() ==> #[trigger] parent_ok(start, m, q[i]),
        q[0] == start,
        forall|i: int| 0 <= i < q.len() ==> hex_distance(start, #[trigger] q[i]) <= hex_distance(
            start,
            end,
        ),
{
    reveal(search_inv);
}

/// Find a path between two hex coordinates with a breadth-first search,
/// treating every hex as traversable: the result runs from `start` to `end`,
/// both included, and is as short as any walk between them.
pub fn find_path(start: HexCoord, end: HexCoord) -> (r: Option<Vec<HexCoord>>)
    requires
        path_search_in_range(start, end),
    ensures
        r is Some,
        r matches Some(p) ==> is_shortest_hex_path(p@, start, end),
        r matches Some(p) ==> p@ == search_path(start, end),
{
    if start == end {
        let v = vec![start];
        proof {
            law_distance_zero_iff_equal(start, end);
            assert(v@ =~= search_path(start, end));
        }
        return Some(v);
    }
    let d: i64 = hex_distance_i64(start, end);
    let ghost dd: int = d as int;
    let ghost bound: int = (2 * dd + 1) * (2 * dd + 1);
    proof {
        law_distance_zero_iff_equal(start, end);
        assert(bound >= 1) by (nonlinear_arith)
            requires
                dd >= 0,
                bound == (2 * dd + 1) * (2 * dd + 1),
        ;
    }
    let mut queue: Vec<HexCoord> = Vec::new();
    queue.push(start);
    let mut head: usize = 0;
    let mut came_from: HashMap<u64, HexCoord> = HashMap::new();
    came_from.insert(compute_hex_key(start), start);
    proof {
        assert(queue@ =~= seq![start]);
        assert(came_from@ =~= Map::<u64, HexCoord>::empty().insert(hex_key(start), start));
        lemma_search_start(start, end, queue@, came_from@);
        lemma_order_start(start, end, queue@, came_from@);
    }
    while head < queue.len()
        invariant
            d == hex_distance(start, end),
            dd == d,
            bound == (2 * dd + 1) * (2 * dd + 1),
            start != end,
            path_search_in_range(start, end),
            search_inv(start, end, dd, queue@, head as int, came_from@),
            order_inv(start, queue@, came_from@),
            head < queue@.len() ==> frontier_inv(
                start,
                dd,
                queue@,
                head as int,
                came_from@,
                6 * skey(start, queue@[head as int]),
            ),
            queue@.len() <= bound,
        decreases 2 * bound - queue@.len() - head,
    {
        let current = queue[head];
        let ghost h: int = head as int;
        proof {
            lemma_search_facts(start, end, queue@, h, came_from@);
        }
        if current == end {
            return Some(reconstruct_path(start, end, &queue, &came_from, Ghost(h)));
        }
        proof {
            lemma_expand_begin(start, end, queue@, h, came_from@);
        }
        head = head + 1;
        let ns = current.neighbors();
        let ghost len0: int = queue@.len() as int;
        let mut i: usize = 0;
        while i < 6
            invariant
                d == hex_distance(start, end),
                dd == d,
                bound == (2 * dd + 1) * (2 * dd + 1),
                start != end,
                path_search_in_range(start, end),
                0 <= h < queue@.len(),
                head == h + 1,
                queue@[h] == current,
                neighbors_computable(current),
                hex_distance(start, current) <= dd,
                forall|k: int| 0 <= k < 6 ==> #[trigger] ns@[k] == neighbor_of(current, k),
                i <= 6,
                expand_inv(start, end, dd, queue@, h, came_from@, i as int),
                order_inv(start, queue@, came_from@),
                frontier_inv(start, dd, queue@, h, came_from@, 6 * skey(start, current) + i),
                queue@.len() <= bound,
                queue@.len() >= len0,
                len0 >= h + 1,
            decreases 6 - i,
        {
            let n = ns[i];
            let kn = compute_hex_key(n);
            let dn = hex_distance_i64(start, n);
            if dn <= d && !came_from.contains_key(&kn) {
                proof {
                    lemma_push_facts(start, end, queue@, h, came_from@, i as int);
                    lemma_expand_push(start, end, queue@, h, came_from@, i as int);
                }
                queue.push(n);
                came_from.insert(kn, current);
            } else {
                proof {
                    lemma_frontier_skip(start, end, queue@, h, came_from@, i as int);
                    lemma_expand_skip(start, end, queue@, h, came_from@, i as int);
                }
            }
            i = i + 1;
        }
        proof {
            if h + 1 < queue@.len() {
                lemma_frontier_next(start, end, queue@, h, came_from@);
            }
            lemma_expand_end(start, end, queue@, h, came_from@);
            lemma_search_facts(start, end, queue@, h + 1, came_from@);
        }
    }
    proof {
        lemma_search_not_exhausted(start, end, queue@, head as int, came_from@);
    }
    None
}

/// The search walk of `n` steps to `v` has `n + 1` hexes, ends at `v`, and
/// each hex in it is the search parent of the next.
proof fn lemma_walk_shape(start: HexCoord, v: HexCoord, n: nat)
    ensures
        search_walk(start, v, n).len() == n + 1,
        search_walk(start, v, n)[n as int] == v,
        forall|k: int|
            0 < k <= n ==> search_walk(start, v, n)[k - 1] == search_parent(
                start,
                #[trigger] search_walk(start, v, n)[k],
            ),
    decreases n,
{
    if n > 0 {
        let p = search_parent(start, v);
        lemma_walk_shape(start, p, (n - 1) as nat);
        let w0 = search_walk(start, p, (n - 1) as nat);
        let w = search_walk(start, v, n);
        assert(w == w0.push(v));
        assert forall|k: int| 0 < k <= n implies w[k - 1] == search_parent(start, #[trigger] w[k]) by {
            if k < n {
                assert(w[k - 1] == w0[k - 1]);
                assert(w[k] == w0[k]);
            }
        }
    }
}

/// Walk the recorded predecessors back from `end` to `start` and return the
/// walk in forward order.
#[verifier::rlimit(30)]
#[verifier::spinoff_prover]
fn reconstruct_path(
    start: HexCoord,
    end: HexCoord,
    queue: &Vec<HexCoord>,
    came_from: &HashMap<u64, HexCoord>,
    Ghost(h): Ghost<int>,
) -> (p: Vec<HexCoord>)
    requires
        start != end,
        search_inv(start, end, hex_distance(start, end), queue@, h, came_from@),
        0 <= h < queue@.len(),
        queue@[h] == end,
        order_inv(start, queue@, came_from@),
    ensures
        is_shortest_hex_path(p@, start, end),
        p@ == search_path(start, end),
{
    let ghost d = hex_distance(start, end);
    let ghost q = queue@;
    let ghost m = came_from@;
    let ghost walk = search_path(start, end);
    proof {
        lemma_search_facts(start, end, q, h, m);
        assert(q.contains(end));
        reveal(order_inv);
        lemma_walk_shape(start, end, d as nat);
    }
    let mut back: Vec<HexCoord> = Vec::new();
    let mut pos = end;
    while pos != start
        invariant
            start != end,
            d == hex_distance(start, end),
            m == came_from@,
            forall|v: HexCoord| #[trigger] reached(m, v) <==> q.contains(v),
            forall|i: int| 1 <= i < q.len() ==> #[trigger] parent_ok(start, m, q[i]),
            q[0] == start,
            q.len() >= 1,
            reached(m, pos),
            back@.len() + hex_distance(start, pos) == d,
            forall|i: int| 0 <= i < back@.len() ==> hex_distance(start, #[trigger] back@[i]) == d - i,
            back@.len() > 0 ==> back@[0] == end,
            back@.len() == 0 ==> pos == end,
            back@.len() > 0 ==> hex_distance(back@[back@.len() - 1], pos) == 1,
            steps_adjacent(back@),
            forall|i: int| 1 <= i < q.len() ==> m[hex_key(#[trigger] q[i])] == search_parent(start, q[i]),
            walk == search_walk(start, end, d as nat),
            walk.len() == d + 1,
            forall|k: int| 0 < k <= d ==> walk[k - 1] == search_parent(start, #[trigger] walk[k]),
            pos == walk[d - back@.len()],
            forall|i: int| 0 <= i < back@.len() ==> #[trigger] back@[i] == walk[d - i],
        decreases hex_distance(start, pos),
    {
        proof {
            let j = choose|j: int| 0 <= j < q.len() && q[j] == pos;
            assert(j != 0);
            assert(parent_ok(start, m, q[j]));
            assert(m[hex_key(q[j])] == search_parent(start, q[j]));
            assert(walk[d - back@.len() - 1] == search_parent(start, walk[d - back@.len()]));
        }
        let ghost b0 = back@;
        back.push(pos);
        let k = compute_hex_key(pos);
        let next = *came_from.get(&k).unwrap();
        proof {
            assert forall|i: int| 0 <= i < back@.len() - 1 implies #[trigger] adjacent_at(back@, i) by {
                if i < b0.len() - 1 {
                    assert(adjacent_at(b0, i));
                }
            }
        }
        pos = next;
    }
    let ghost b1 = back@;
    back.push(start);
    proof {
        law_distance_zero_iff_equal(start, start);
        assert forall|i: int| 0 <= i < back@.len() - 1 implies #[trigger] adjacent_at(back@, i) by {
            if i < b1.len() - 1 {
                assert(adjacent_at(b1, i));
            }
        }
        assert(b1.len() == d);
        assert forall|j: int| 0 <= j < back@.len() implies #[trigger] back@[j] == walk[d - j] by {
            if j < b1.len() {
                assert(back@[j] == b1[j]);
            }
        }
    }
    let n = back.len();
    let mut path: Vec<HexCoord> = Vec::new();
    let mut i: usize = n;
    while i > 0
        invariant
            n == back@.len(),
            n == d + 1,
            walk.len() == d + 1,
            forall|j: int| 0 <= j < back@.len() ==> #[trigger] back@[j] == walk[d - j],
            back@[0] == end,
            back@[n - 1] == start,
            steps_adjacent(back@),
            i <= n,
            path@.len() == n - i,
            forall|j: int| 0 <= j < path@.len() ==> #[trigger] path@[j] == back@[n - 1 - j],
        decreases i,
    {
        i = i - 1;
        path.push(back[i]);
    }
    proof {
        assert forall|j: int| 0 <= j < path@.len() - 1 implies #[trigger] adjacent_at(path@, j) by {
            assert(adjacent_at(back@, n - 2 - j));
            law_distance_symmetric(back@[n - 2 - j], back@[n - 1 - j]);
            assert(path@[j] == back@[n - 1 - j]);
            assert(path@[j + 1] == back@[n - 1 - (j + 1)]);
        }
        assert forall|j: int| 0 <= j < path@.len() implies #[trigger] path@[j] == walk[j] by {
            assert(back@[n - 1 - j] == walk[d - (n - 1 - j)]);
        }
        assert(path@ =~= walk);
    }
    path
}

/// Step-by-step walk of a unit along a path: the path from the start hex to
/// the destination, both included, and the index of the hex the unit stands
/// on. Timing (the fractional progress toward the next hex and the speed)
/// belongs to the caller, which advances the walk one hex at a time.
#[derive(Clone, Debug)]
pub struct UnitAnimation {
    unit_id: Uuid,
    path: Vec<HexCoord>,
    current_step: usize,
}

impl UnitAnimation {
    /// The unit being moved.
    pub closed spec fn spec_unit_id(self) -> Uuid {
        self.unit_id
    }

    /// The whole path, start and destination included.
    pub closed spec fn spec_path(self) -> Seq<HexCoord> {
        self.path@
    }

    /// Index in the path of the hex the unit stands on.
    pub closed spec fn spec_step(self) -> int {
        self.current_step as int
    }

    /// Start a walk of `unit_id` along `path`, standing on its first hex.
    pub fn new(unit_id: Uuid, path: Vec<HexCoord>) -> (a: UnitAnimation)
        ensures
            a.spec_unit_id() == unit_id,
            a.spec_path() == path@,
            a.spec_step() == 0,
    {
        UnitAnimation { unit_id, path, current_step: 0 }
    }

    /// The unit being moved.
    pub fn unit_id(&self) -> (id: Uuid)
        ensures
            id == self.spec_unit_id(),
    {
        self.unit_id
    }

    /// The hex the unit currently stands on.
    pub fn current_hex(&self) -> (c: HexCoord)
        requires
            self.spec_step() < self.spec_path().len(),
        ensures
            c == self.spec_path()[self.spec_step()],
    {
        self.path[self.current_step]
    }

    /// The next hex of the walk, if any.
    pub fn next_hex(&self) -> (n: Option<HexCoord>)
        ensures
            n == (if self.spec_step() + 1 < self.spec_path().len() {
                Some(self.spec_path()[self.spec_step() + 1])
            } else {
                None
            }),
    {
        if self.current_step < self.path.len() && self.current_step + 1 < self.path.len() {
            Some(self.path[self.current_step + 1])
        } else {
            None
        }
    }

    /// The final hex of the path.
    pub fn destination(&self) -> (c: HexCoord)
        requires
            self.spec_path().len() > 0,
        ensures
            c == self.spec_path()[self.spec_path().len() - 1],
    {
        self.path[self.path.len() - 1]
    }

    /// Whether the unit has reached the last hex of the path.
    pub fn is_complete(&self) -> (b: bool)
        ensures
            b == (self.spec_step() + 1 >= self.spec_path().len()),
    {
        !(self.current_step < self.path.len() && self.current_step + 1 < self.path.len())
    }

    /// Move the unit onto the next hex of the path and return that hex; once
    /// the walk is complete, nothing changes and `None` is returned.
    pub fn advance(&mut self) -> (stepped: Option<HexCoord>)
        ensures
            final(self).spec_unit_id() == old(self).spec_unit_id(),
            final(self).spec_path() == old(self).spec_path(),
            if old(self).spec_step() + 1 < old(self).spec_path().len() {
                &&& final(self).spec_step() == old(self).spec_step() + 1
                &&& stepped == Some(old(self).spec_path()[old(self).spec_step() + 1])
            } else {
                &&& final(self).spec_step() == old(self).spec_step()
                &&& stepped is None
            },
    {
        if self.current_step < self.path.len() && self.current_step + 1 < self.path.len() {
            self.current_step = self.current_step + 1;
            Some(self.path[self.current_step])
        } else {
            None
        }
    }
}

} // verus!
