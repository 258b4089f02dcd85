//! A standalone axial coordinate type with its own neighbor order.
use vstd::prelude::*;
use crate::hexagon::{
    abs_int, axial_distance, axial_distance_computable, axial_distance_i32,
    lemma_axial_distance_is_max,
};

verus! {

/// Axial coordinates (flat-top orientation): `q` is the column, `r` the row.
#[derive(Clone, Copy, Debug, PartialEq, Eq, Structural, Hash)]
pub struct SimpleHexCoord {
    pub q: i32,
    pub r: i32,
}

/// Hex distance between two simple coordinates.
pub open spec fn simple_distance(a: SimpleHexCoord, b: SimpleHexCoord) -> int {
    axial_distance(a.q as int, a.r as int, b.q as int, b.r as int)
}

/// The distance between `a` and `b` can be computed in `i32`.
pub open spec fn simple_distance_computable(a: SimpleHexCoord, b: SimpleHexCoord) -> bool {
    axial_distance_computable(a.q as int, a.r as int, b.q as int, b.r as int)
}

/// The six axial offsets in the order of `SimpleHexCoord::neighbors`:
/// east, northeast, north, west, southwest, south.
pub open spec fn simple_offset(i: int) -> (int, int) {
    if i == 0 {
        (1, 0)
    } else if i == 1 {
        (1, -1)
    } else if i == 2 {
        (0, -1)
    } else if i == 3 {
        (-1, 0)
    } else if i == 4 {
        (-1, 1)
    } else {
        (0, 1)
    }
}

impl SimpleHexCoord {
    /// Create a new `SimpleHexCoord(q, r)`.
    pub fn new(q: i32, r: i32) -> (c: SimpleHexCoord)
        ensures
            c.q == q,
            c.r == r,
    {
        SimpleHexCoord { q, r }
    }

    /// The six neighboring hexagons.
    pub fn neighbors(self) -> (ns: [SimpleHexCoord; 6])
        requires
            i32::MIN < self.q < i32::MAX,
            i32::MIN < self.r < i32::MAX,
        ensures
            forall|i: int|
                0 <= i < 6 ==> (#[trigger] ns@[i]).q == self.q + simple_offset(i).0 && ns@[i].r
                    == self.r + simple_offset(i).1,
            forall|i: int| 0 <= i < 6 ==> simple_distance(self, #[trigger] ns@[i]) == 1,
            forall|i: int, j: int| 0 <= i < j < 6 ==> #[trigger] ns@[i] != #[trigger] ns@[j],
            forall|n: SimpleHexCoord|
                simple_distance(self, n) == 1 ==> exists|i: int| 0 <= i < 6 && #[trigger] ns@[i] == n,
    {
        proof {
            law_simple_neighbors_are_adjacent_hexes(self);
        }
        let ns = [
            SimpleHexCoord::new(self.q + 1, self.r),
            SimpleHexCoord::new(self.q + 1, self.r - 1),
            SimpleHexCoord::new(self.q, self.r - 1),
            SimpleHexCoord::new(self.q - 1, self.r),
            SimpleHexCoord::new(self.q - 1, self.r + 1),
            SimpleHexCoord::new(self.q, self.r + 1),
        ];
        assert forall|i: int| 0 <= i < 6 implies #[trigger] ns@[i] == simple_step(self, i) by {}
        ns
    }

    /// Distance between two hex coordinates, in hex steps.
    pub fn distance(self, other: SimpleHexCoord) -> (d: i32)
        requires
            simple_distance_computable(self, other),
        ensures
            d == simple_distance(self, other),
    {
        axial_distance_i32(self.q, self.r, other.q, other.r)
    }

    /// Whether this coordinate lies within `radius` steps of `center`.
    pub fn is_within_radius(self, center: SimpleHexCoord, radius: i32) -> (b: bool)
        requires
            simple_distance_computable(self, center),
        ensures
            b == (simple_distance(self, center) <= radius),
    {
        self.distance(center) <= radius
    }
}

/// The hex one step from `c` in the `i`-th neighbor direction.
pub open spec fn simple_step(c: SimpleHexCoord, i: int) -> SimpleHexCoord {
    SimpleHexCoord { q: (c.q + simple_offset(i).0) as i32, r: (c.r + simple_offset(i).1) as i32 }
}

/// Law: the six neighbor directions lead to six different hexes, each one
/// step away, and every hex one step away is reached by one of them.
pub proof fn law_simple_neighbors_are_adjacent_hexes(c: SimpleHexCoord)
    requires
        i32::MIN < c.q < i32::MAX,
        i32::MIN < c.r < i32::MAX,
    ensures
        forall|i: int| 0 <= i < 6 ==> simple_distance(c, #[trigger] simple_step(c, i)) == 1,
        forall|i: int, j: int|
            0 <= i < j < 6 ==> #[trigger] simple_step(c, i) != #[trigger] simple_step(c, j),
        forall|n: SimpleHexCoord|
            simple_distance(c, n) == 1 ==> exists|i: int| 0 <= i < 6 && #[trigger] simple_step(c, i) == n,
{
    assert forall|n: SimpleHexCoord| simple_distance(c, n) == 1 implies exists|i: int|
        0 <= i < 6 && #[trigger] simple_step(c, i) == n by {
        let dq = n.q - c.q;
        let dr = n.r - c.r;
        lemma_axial_distance_is_max(c.q as int, c.r as int, n.q as int, n.r as int);
        if dq == 1 && dr == 0 {
            assert(simple_step(c, 0) == n);
        } else if dq == 1 && dr == -1 {
            assert(simple_step(c, 1) == n);
        } else if dq == 0 && dr == -1 {
            assert(simple_step(c, 2) == n);
        } else if dq == -1 && dr == 0 {
            assert(simple_step(c, 3) == n);
        } else if dq == -1 && dr == 1 {
            assert(simple_step(c, 4) == n);
        } else {
            assert(simple_step(c, 5) == n);
        }
    }
}

} // verus!
