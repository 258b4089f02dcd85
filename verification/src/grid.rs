//! The hex map: the hexagons of the map indexed by coordinate, with the
//! operations that place and remove sprites and highlights on them.
use vstd::prelude::*;
use std::collections::HashMap;
use vstd::std_specs::iter::IteratorSpec;
use crate::hexagon::{
    compute_hex_key, fresh_hexagon, hex_distance, hex_key, lemma_axial_distance_is_max,
    lemma_hex_key_injective_all, terrain_seed_computable, HexCoord, Hexagon, HighlightType,
    SpriteType,
};

verus! {

broadcast use vstd::std_specs::hash::group_hash_axioms;

/// Radius, in hexes around the origin, of the map built by `HexGrid::new`.
pub const DEFAULT_GRID_RADIUS: i32 = 15;

/// The origin of the axial coordinate system.
pub open spec fn origin() -> HexCoord {
    HexCoord { q: 0, r: 0 }
}

/// The hexagons of the default map: all hexes within the default radius of the origin.
pub open spec fn in_default_map(c: HexCoord) -> bool {
    hex_distance(c, origin()) <= DEFAULT_GRID_RADIUS
}

/// The map: hexagons indexed by their coordinate.
pub struct HexGrid {
    hexagons: HashMap<u64, Hexagon>,
    grid_radius: i32,
}

/// The map of hexagons that a keyed store describes.
pub open spec fn keyed_view(m: Map<u64, Hexagon>) -> Map<HexCoord, Hexagon> {
    Map::new(|c: HexCoord| m.contains_key(hex_key(c)), |c: HexCoord| m[hex_key(c)])
}

/// Every hexagon of a map is stored under its own coordinate.
pub open spec fn coords_match(v: Map<HexCoord, Hexagon>) -> bool {
    forall|c: HexCoord| #[trigger] v.contains_key(c) ==> v[c].coord == c
}

/// Every hexagon of a keyed store is stored under the key of its coordinate.
pub open spec fn keys_match(m: Map<u64, Hexagon>) -> bool {
    forall|k: u64| #[trigger] m.contains_key(k) ==> hex_key(m[k].coord) == k
}

proof fn lemma_keys_match_coords(m: Map<u64, Hexagon>)
    requires
        keys_match(m),
    ensures
        coords_match(keyed_view(m)),
{
    lemma_hex_key_injective_all();
    assert forall|c: HexCoord| #[trigger] keyed_view(m).contains_key(c) implies keyed_view(m)[c].coord == c by {
        assert(m.contains_key(hex_key(c)));
    }
}

proof fn lemma_take_one_more_contains(s: Seq<HexCoord>, i: int)
    requires
        0 <= i < s.len(),
    ensures
        forall|x: HexCoord| #[trigger] s.take(i + 1).contains(x) <==> (s.take(i).contains(x) || x == s[i]),
{
    let a = s.take(i);
    let b = s.take(i + 1);
    assert(b =~= a.push(s[i]));
    assert forall|x: HexCoord| #[trigger] b.contains(x) <==> (a.contains(x) || x == s[i]) by {
        if b.contains(x) {
            let j = choose|j: int| 0 <= j < b.len() && b[j] == x;
            if j < i {
                assert(a[j] == x);
            }
        }
        if a.contains(x) {
            let j = choose|j: int| 0 <= j < a.len() && a[j] == x;
            assert(b[j] == x);
        }
        if x == s[i] {
            assert(b[i] == x);
        }
    }
}

proof fn lemma_listed_hexagons_distinct(m: Map<u64, Hexagon>, all: Seq<Hexagon>)
    requires
        keys_match(m),
        m.dom().finite(),
        all.to_set() == m.values(),
        all.len() == m.dom().len(),
    ensures
        forall|i: int, j: int|
            0 <= i < all.len() && 0 <= j < all.len() && i != j ==> #[trigger] all[i].coord
                != #[trigger] all[j].coord,
{
    let f = |k: u64| m[k];
    assert(vstd::relations::injective_on(f, m.dom())) by {
        assert forall|k1: u64, k2: u64|
            m.dom().contains(k1) && m.dom().contains(k2) && #[trigger] f(k1) == #[trigger] f(k2)
            implies k1 == k2 by {
            assert(hex_key(m[k1].coord) == k1);
            assert(hex_key(m[k2].coord) == k2);
        }
    }
    assert(m.dom().map(f) =~= m.values()) by {
        assert forall|v: Hexagon| #[trigger] m.values().contains(v) implies m.dom().map(f).contains(
            v,
        ) by {
            let k = choose|k: u64| m.contains_key(k) && m[k] == v;
            assert(f(k) == v);
        }
    }
    vstd::set_lib::lemma_map_size(m.dom(), m.values(), f);
    all.lemma_no_dup_set_cardinality();
    assert forall|i: int, j: int|
        0 <= i < all.len() && 0 <= j < all.len() && i != j implies #[trigger] all[i].coord
        != #[trigger] all[j].coord by {
        assert(all.to_set().contains(all[i]));
        assert(all.to_set().contains(all[j]));
        let ki = choose|k: u64| m.contains_key(k) && m[k] == all[i];
        let kj = choose|k: u64| m.contains_key(k) && m[k] == all[j];
        assert(hex_key(all[i].coord) == ki);
        assert(hex_key(all[j].coord) == kj);
    }
}

impl View for HexGrid {
    type V = Map<HexCoord, Hexagon>;

    closed spec fn view(&self) -> Map<HexCoord, Hexagon> {
        keyed_view(self.hexagons@)
    }
}

proof fn lemma_keyed_insert(m: Map<u64, Hexagon>, c: HexCoord, h: Hexagon)
    ensures
        keyed_view(m.insert(hex_key(c), h)) == keyed_view(m).insert(c, h),
{
    lemma_hex_key_injective_all();
    assert(keyed_view(m.insert(hex_key(c), h)) =~= keyed_view(m).insert(c, h));
}

proof fn lemma_keyed_remove(m: Map<u64, Hexagon>, c: HexCoord)
    ensures
        keyed_view(m.remove(hex_key(c))) == keyed_view(m).remove(c),
{
    lemma_hex_key_injective_all();
    assert(keyed_view(m.remove(hex_key(c))) =~= keyed_view(m).remove(c));
}

/// Hex distance computed in `i64`, where no `i32` coordinates overflow.
fn distance_i64(a: HexCoord, b: HexCoord) -> (d: i64)
    ensures
        d == hex_distance(a, b),
{
    let dq: i64 = a.q as i64 - b.q as i64;
    let ds: i64 = (a.q as i64 + a.r as i64) - (b.q as i64 + b.r as i64);
    let dr: i64 = a.r as i64 - b.r as i64;
    let x = if dq < 0 { -dq } else { dq };
    let y = if ds < 0 { -ds } else { ds };
    let z = if dr < 0 { -dr } else { dr };
    (x + y + z) / 2
}

/// The hexagon `h` with its terrain sprite replaced.
pub open spec fn with_sprite(h: Hexagon, sprite: SpriteType) -> Hexagon {
    Hexagon { sprite, ..h }
}

/// The map that a list of tiles describes: a fresh hexagon with the given
/// terrain for each tile, a later tile replacing an earlier one at the same
/// coordinate.
pub open spec fn tiles_map(tiles: Seq<(HexCoord, SpriteType)>) -> Map<HexCoord, Hexagon>
    decreases tiles.len(),
{
    if tiles.len() == 0 {
        Map::empty()
    } else {
        let last = tiles[tiles.len() - 1];
        tiles_map(tiles.drop_last()).insert(last.0, with_sprite(fresh_hexagon(last.0), last.1))
    }
}

/// The map after applying `f` to the hexagon at `c`, if there is one.
pub open spec fn update_at(
    v: Map<HexCoord, Hexagon>,
    c: HexCoord,
    f: spec_fn(Hexagon) -> Hexagon,
) -> Map<HexCoord, Hexagon> {
    if v.contains_key(c) {
        v.insert(c, f(v[c]))
    } else {
        v
    }
}

impl HexGrid {
    #[verifier::type_invariant]
    spec fn stored_by_coord(self) -> bool {
        keys_match(self.hexagons@)
    }

    /// The default map: a fresh hexagon (seeded terrain, nothing on it) at
    /// every hex within the default radius of the origin.
    pub fn new() -> (g: HexGrid)
        ensures
            forall|c: HexCoord| #[trigger] g@.contains_key(c) <==> in_default_map(c),
            forall|c: HexCoord| #[trigger] g@.contains_key(c) ==> g@[c] == fresh_hexagon(c),
    {
        let grid_radius: i32 = DEFAULT_GRID_RADIUS;
        let mut hexagons: HashMap<u64, Hexagon> = HashMap::new();
        proof {
            lemma_hex_key_injective_all();
        }
        let mut q: i32 = -grid_radius;
        while q <= grid_radius
            invariant
                grid_radius == 15,
                -15 <= q <= 16,
                forall|a: HexCoord, b: HexCoord| #[trigger] hex_key(a) == #[trigger] hex_key(b) ==> a == b,
                keys_match(hexagons@),
                forall|c: HexCoord|
                    #[trigger] hexagons@.contains_key(hex_key(c)) <==> (c.q < q && in_default_map(c)),
                forall|c: HexCoord|
                    #[trigger] hexagons@.contains_key(hex_key(c)) ==> hexagons@[hex_key(c)]
                        == fresh_hexagon(c),
            decreases 16 - q,
        {
            let r1: i32 = if -grid_radius > -q - grid_radius {
                -grid_radius
            } else {
                -q - grid_radius
            };
            let r2: i32 = if grid_radius < -q + grid_radius {
                grid_radius
            } else {
                -q + grid_radius
            };
            let mut r: i32 = r1;
            while r <= r2
                invariant
                    grid_radius == 15,
                    -15 <= q <= 15,
                    r1 == (if -15 > -q - 15 { -15 } else { -q - 15 }),
                    r2 == (if 15 < -q + 15 { 15 } else { -q + 15 }),
                    r1 <= r <= r2 + 1,
                    forall|a: HexCoord, b: HexCoord| #[trigger] hex_key(a) == #[trigger] hex_key(b) ==> a == b,
                    keys_match(hexagons@),
                    forall|c: HexCoord|
                        #[trigger] hexagons@.contains_key(hex_key(c)) <==> ((c.q < q
                            && in_default_map(c)) || (c.q == q && r1 <= c.r < r)),
                    forall|c: HexCoord|
                        #[trigger] hexagons@.contains_key(hex_key(c)) ==> hexagons@[hex_key(c)]
                            == fresh_hexagon(c),
                decreases r2 + 1 - r,
            {
                let coord = HexCoord::new(q, r);
                proof {
                    assert(-225 <= q * r <= 225) by (nonlinear_arith)
                        requires
                            -15 <= q <= 15,
                            -15 <= r <= 15,
                    ;
                }
                hexagons.insert(compute_hex_key(coord), Hexagon::new(coord));
                r = r + 1;
            }
            proof {
                assert forall|c: HexCoord|
                    #[trigger] hexagons@.contains_key(hex_key(c)) <==> (c.q < q + 1 && in_default_map(
                        c,
                    )) by {
                    lemma_axial_distance_is_max(c.q as int, c.r as int, 0, 0);
                }
            }
            q = q + 1;
        }
        HexGrid { hexagons, grid_radius }
    }

    /// Move the store out, leaving an empty one in its place.
    fn take_store(&mut self) -> (store: HashMap<u64, Hexagon>)
        ensures
            store@ == old(self).hexagons@,
            final(self).hexagons@ == Map::<u64, Hexagon>::empty(),
            final(self).grid_radius == old(self).grid_radius,
    {
        let mut store: HashMap<u64, Hexagon> = HashMap::new();
        std::mem::swap(&mut store, &mut self.hexagons);
        store
    }


    /// Move the hexagon at `coord` out of the map, if there is one.
    fn take_hex(&mut self, coord: HexCoord) -> (h: Option<Hexagon>)
        ensures
            final(self)@ == old(self)@.remove(coord),
            h == (if old(self)@.contains_key(coord) {
                Some(old(self)@[coord])
            } else {
                None
            }),
            h matches Some(hex) ==> hex.coord == coord,
    {
        proof {
            use_type_invariant(&*self);
            lemma_keys_match_coords(self.hexagons@);
        }
        self.remove_hex(coord)
    }

    /// Store `hex` at its own coordinate.
    fn put_hex(&mut self, hex: Hexagon)
        ensures
            final(self)@ == old(self)@.insert(hex.coord, hex),
    {
        proof {
            use_type_invariant(&*self);
            lemma_keyed_insert(self.hexagons@, hex.coord, hex);
        }
        let k = compute_hex_key(hex.coord);
        let mut store = self.take_store();
        store.insert(k, hex);
        self.hexagons = store;
    }

    /// Place a unit sprite at `coord` (terrain kept), if the hex exists.
    pub fn set_unit_at(&mut self, coord: HexCoord, unit_sprite: SpriteType)
        ensures
            final(self)@ == update_at(old(self)@, coord, |h: Hexagon| Hexagon { unit_sprite: Some(unit_sprite), ..h }),
    {
        if let Some(mut hex) = self.take_hex(coord) {
            hex.set_unit_sprite(Some(unit_sprite));
            self.put_hex(hex);
        }
        assert(self@ =~= update_at(old(self)@, coord, |h: Hexagon| Hexagon { unit_sprite: Some(unit_sprite), ..h }));
    }

    /// Place an item sprite at `coord` (terrain and unit kept), if the hex exists.
    pub fn set_item_at(&mut self, coord: HexCoord, item_sprite: SpriteType)
        ensures
            final(self)@ == update_at(old(self)@, coord, |h: Hexagon| Hexagon { item_sprite: Some(item_sprite), ..h }),
    {
        if let Some(mut hex) = self.take_hex(coord) {
            hex.set_item_sprite(Some(item_sprite));
            self.put_hex(hex);
        }
        assert(self@ =~= update_at(old(self)@, coord, |h: Hexagon| Hexagon { item_sprite: Some(item_sprite), ..h }));
    }

    /// Place a structure sprite at `coord` (terrain kept), if the hex exists.
    pub fn set_structure_at(&mut self, coord: HexCoord, structure_sprite: SpriteType)
        ensures
            final(self)@ == update_at(old(self)@, coord, |h: Hexagon| Hexagon { structure_sprite: Some(structure_sprite), ..h }),
    {
        if let Some(mut hex) = self.take_hex(coord) {
            hex.set_structure_sprite(Some(structure_sprite));
            self.put_hex(hex);
        }
        assert(self@ =~= update_at(old(self)@, coord, |h: Hexagon| Hexagon { structure_sprite: Some(structure_sprite), ..h }));
    }

    /// Remove the unit sprite at `coord`, if the hex exists.
    pub fn remove_unit_at(&mut self, coord: HexCoord)
        ensures
            final(self)@ == update_at(old(self)@, coord, |h: Hexagon| Hexagon { unit_sprite: None, ..h }),
    {
        if let Some(mut hex) = self.take_hex(coord) {
            hex.set_unit_sprite(None);
            self.put_hex(hex);
        }
        assert(self@ =~= update_at(old(self)@, coord, |h: Hexagon| Hexagon { unit_sprite: None, ..h }));
    }

    /// Remove the item sprite at `coord`, if the hex exists.
    pub fn remove_item_at(&mut self, coord: HexCoord)
        ensures
            final(self)@ == update_at(old(self)@, coord, |h: Hexagon| Hexagon { item_sprite: None, ..h }),
    {
        if let Some(mut hex) = self.take_hex(coord) {
            hex.set_item_sprite(None);
            self.put_hex(hex);
        }
        assert(self@ =~= update_at(old(self)@, coord, |h: Hexagon| Hexagon { item_sprite: None, ..h }));
    }

    /// Remove the structure sprite at `coord`, if the hex exists.
    pub fn remove_structure_at(&mut self, coord: HexCoord)
        ensures
            final(self)@ == update_at(old(self)@, coord, |h: Hexagon| Hexagon { structure_sprite: None, ..h }),
    {
        if let Some(mut hex) = self.take_hex(coord) {
            hex.set_structure_sprite(None);
            self.put_hex(hex);
        }
        assert(self@ =~= update_at(old(self)@, coord, |h: Hexagon| Hexagon { structure_sprite: None, ..h }));
    }

    /// Set the terrain sprite at `coord`, if the hex exists.
    pub fn set_sprite_at(&mut self, coord: HexCoord, sprite: SpriteType)
        ensures
            final(self)@ == update_at(old(self)@, coord, |h: Hexagon| Hexagon { sprite, ..h }),
    {
        if let Some(mut hex) = self.take_hex(coord) {
            hex.set_sprite(sprite);
            self.put_hex(hex);
        }
        assert(self@ =~= update_at(old(self)@, coord, |h: Hexagon| Hexagon { sprite, ..h }));
    }

    /// Highlight the hex at `coord`, if it exists.
    pub fn highlight_hex(&mut self, coord: HexCoord, highlight_type: HighlightType)
        ensures
            final(self)@ == update_at(old(self)@, coord, |h: Hexagon| Hexagon { highlight: highlight_type, ..h }),
    {
        if let Some(mut hex) = self.take_hex(coord) {
            hex.set_highlight(highlight_type);
            self.put_hex(hex);
        }
        assert(self@ =~= update_at(old(self)@, coord, |h: Hexagon| Hexagon { highlight: highlight_type, ..h }));
    }

    /// Set or remove the text overlay of the hex at `coord`, if it exists.
    pub fn set_hex_text_overlay(&mut self, coord: HexCoord, text: Option<String>)
        ensures
            final(self)@ == update_at(old(self)@, coord, |h: Hexagon| Hexagon { text_overlay: text, ..h }),
    {
        if let Some(mut hex) = self.take_hex(coord) {
            hex.set_text_overlay(text);
            self.put_hex(hex);
        }
        assert(self@ =~= update_at(old(self)@, coord, |h: Hexagon| Hexagon { text_overlay: text, ..h }));
    }

    /// Whether a unit stands at `coord` (false where there is no hex).
    pub fn has_unit_at(&self, coord: HexCoord) -> (b: bool)
        ensures
            b == (self@.contains_key(coord) && self@[coord].unit_sprite is Some),
    {
        match self.get_hex_at(coord) {
            Some(hex) => hex.has_unit(),
            None => false,
        }
    }

    /// Whether a structure stands at `coord` (false where there is no hex).
    pub fn has_structure_at(&self, coord: HexCoord) -> (b: bool)
        ensures
            b == (self@.contains_key(coord) && self@[coord].structure_sprite is Some),
    {
        match self.get_hex_at(coord) {
            Some(hex) => hex.has_structure(),
            None => false,
        }
    }


    /// The coordinates of all hexagons of the map (in no particular order).
    fn coords(&self) -> (v: Vec<HexCoord>)
        ensures
            forall|c: HexCoord| #[trigger] self@.contains_key(c) <==> v@.contains(c),
            v@.no_duplicates(),
    {
        proof {
            use_type_invariant(self);
        }
        let mut v: Vec<HexCoord> = Vec::new();
        let ghost all = vstd::std_specs::hash::spec_values_iter(&self.hexagons).remaining();
        for h in it: self.hexagons.values()
            invariant
                it.seq() == all,
                v@.len() == it.index(),
                forall|j: int| 0 <= j < it.index() ==> v@[j] == (#[trigger] it.seq()[j]).coord,
        {
            v.push(h.coord);
        }
        proof {
            let vals = self.hexagons@.values();
            assert(all.unref().to_set() == vals);
            assert(v@.len() == all.len());
            lemma_listed_hexagons_distinct(self.hexagons@, all.unref());
            assert forall|i: int, j: int| 0 <= i < v@.len() && 0 <= j < v@.len() && i != j
                implies v@[i] != v@[j] by {
                assert(all.unref()[i] == *all[i]);
                assert(all.unref()[j] == *all[j]);
            }
            assert forall|c: HexCoord| #[trigger] self@.contains_key(c) <==> v@.contains(c) by {
                if self@.contains_key(c) {
                    let h = self.hexagons@[hex_key(c)];
                    assert(vals.contains(h));
                    assert(all.unref().to_set().contains(h));
                    let j = choose|j: int| 0 <= j < all.len() && all.unref()[j] == h;
                    assert(v@[j] == c);
                }
                if v@.contains(c) {
                    let j = choose|j: int| 0 <= j < v@.len() && v@[j] == c;
                    let h = *all[j];
                    assert(all.unref()[j] == h);
                    assert(all.unref().to_set().contains(h));
                    let k = choose|k: u64| self.hexagons@.contains_key(k) && self.hexagons@[k] == h;
                    assert(hex_key(c) == k);
                    assert(keyed_view(self.hexagons@).contains_key(c));
                }
            }
        }
        v
    }


    /// Highlight every listed hex that exists.
    pub fn highlight_hexes(&mut self, coords: &[HexCoord], highlight_type: HighlightType)
        ensures
            final(self)@.dom() == old(self)@.dom(),
            forall|c: HexCoord|
                #[trigger] final(self)@.contains_key(c) ==> final(self)@[c] == (if coords@.contains(c) {
                    Hexagon { highlight: highlight_type, ..old(self)@[c] }
                } else {
                    old(self)@[c]
                }),
    {
        let mut i: usize = 0;
        while i < coords.len()
            invariant
                0 <= i <= coords@.len(),
                self@.dom() == old(self)@.dom(),
                forall|c: HexCoord|
                    #[trigger] self@.contains_key(c) ==> self@[c] == (if coords@.take(i as int).contains(c) {
                        Hexagon { highlight: highlight_type, ..old(self)@[c] }
                    } else {
                        old(self)@[c]
                    }),
            decreases coords@.len() - i,
        {
            let c = coords[i];
            let ghost before = self@;
            self.highlight_hex(c, highlight_type);
            proof {
                lemma_take_one_more_contains(coords@, i as int);
                assert(self@.dom() =~= old(self)@.dom());
            }
            i = i + 1;
        }
        proof {
            assert(coords@.take(coords@.len() as int) =~= coords@);
        }
    }

    /// Remove the highlight of every hex.
    pub fn clear_all_highlights(&mut self)
        ensures
            final(self)@ == old(self)@.map_values(|h: Hexagon| Hexagon { highlight: HighlightType::Plain, ..h }),
    {
        let all = self.coords();
        let mut i: usize = 0;
        while i < all.len()
            invariant
                0 <= i <= all@.len(),
                forall|c: HexCoord| #[trigger] old(self)@.contains_key(c) <==> all@.contains(c),
                self@.dom() == old(self)@.dom(),
                forall|c: HexCoord|
                    #[trigger] self@.contains_key(c) ==> self@[c] == (if all@.take(i as int).contains(c) {
                        Hexagon { highlight: HighlightType::Plain, ..old(self)@[c] }
                    } else {
                        old(self)@[c]
                    }),
            decreases all@.len() - i,
        {
            let c = all[i];
            self.highlight_hex(c, HighlightType::Plain);
            proof {
                lemma_take_one_more_contains(all@, i as int);
                assert(self@.dom() =~= old(self)@.dom());
            }
            i = i + 1;
        }
        proof {
            assert(all@.take(all@.len() as int) =~= all@);
            assert(self@ =~= old(self)@.map_values(|h: Hexagon| Hexagon { highlight: HighlightType::Plain, ..h }));
        }
    }

    /// Remove the text overlay of every hex.
    pub fn clear_all_text_overlays(&mut self)
        ensures
            final(self)@ == old(self)@.map_values(|h: Hexagon| Hexagon { text_overlay: None, ..h }),
    {
        let all = self.coords();
        let mut i: usize = 0;
        while i < all.len()
            invariant
                0 <= i <= all@.len(),
                forall|c: HexCoord| #[trigger] old(self)@.contains_key(c) <==> all@.contains(c),
                self@.dom() == old(self)@.dom(),
                forall|c: HexCoord|
                    #[trigger] self@.contains_key(c) ==> self@[c] == (if all@.take(i as int).contains(c) {
                        Hexagon { text_overlay: None, ..old(self)@[c] }
                    } else {
                        old(self)@[c]
                    }),
            decreases all@.len() - i,
        {
            let c = all[i];
            self.set_hex_text_overlay(c, None);
            proof {
                lemma_take_one_more_contains(all@, i as int);
                assert(self@.dom() =~= old(self)@.dom());
            }
            i = i + 1;
        }
        proof {
            assert(all@.take(all@.len() as int) =~= all@);
            assert(self@ =~= old(self)@.map_values(|h: Hexagon| Hexagon { text_overlay: None, ..h }));
        }
    }

    /// A map with no hexagons.
    pub fn empty() -> (g: HexGrid)
        ensures
            g@ == Map::<HexCoord, Hexagon>::empty(),
    {
        let g = HexGrid { hexagons: HashMap::new(), grid_radius: 0 };
        assert(g@ =~= Map::<HexCoord, Hexagon>::empty());
        g
    }

    /// A map with exactly the given tiles: a fresh hexagon with the given
    /// terrain at each listed coordinate (the last listing of a coordinate wins).
    pub fn from_tiles(tiles: Vec<(HexCoord, SpriteType)>) -> (g: HexGrid)
        requires
            forall|i: int| 0 <= i < tiles@.len() ==> terrain_seed_computable(#[trigger] tiles@[i].0),
        ensures
            g@ == tiles_map(tiles@),
    {
        let mut hexagons: HashMap<u64, Hexagon> = HashMap::new();
        let mut i: usize = 0;
        proof {
            assert(keyed_view(hexagons@) =~= tiles_map(tiles@.take(0)));
        }
        while i < tiles.len()
            invariant
                0 <= i <= tiles@.len(),
                forall|j: int| 0 <= j < tiles@.len() ==> terrain_seed_computable(#[trigger] tiles@[j].0),
                keyed_view(hexagons@) == tiles_map(tiles@.take(i as int)),
                keys_match(hexagons@),
            decreases tiles@.len() - i,
        {
            let (coord, sprite) = tiles[i];
            let mut hexagon = Hexagon::new(coord);
            hexagon.set_sprite(sprite);
            let ghost before = hexagons@;
            hexagons.insert(compute_hex_key(coord), hexagon);
            proof {
                lemma_keyed_insert(before, coord, hexagon);
                assert(tiles@.take(i + 1).drop_last() =~= tiles@.take(i as int));
            }
            i = i + 1;
        }
        proof {
            assert(tiles@.take(tiles@.len() as int) =~= tiles@);
        }
        HexGrid { hexagons, grid_radius: 0 }
    }

    /// The coordinates of the map's hexagons at most `radius` hex steps
    /// from `center`, each once, in no particular order: the cheap first cut
    /// of the visible area around the camera.
    pub fn coords_within(&self, center: HexCoord, radius: i32) -> (v: Vec<HexCoord>)
        ensures
            forall|c: HexCoord| #[trigger] v@.contains(c) <==> (self@.contains_key(c)
                && hex_distance(c, center) <= radius),
            v@.no_duplicates(),
    {
        let all = self.coords();
        let mut v: Vec<HexCoord> = Vec::new();
        let mut i: usize = 0;
        while i < all.len()
            invariant
                i <= all@.len(),
                forall|c: HexCoord| #[trigger] self@.contains_key(c) <==> all@.contains(c),
                forall|c: HexCoord| #[trigger] v@.contains(c) <==> (all@.take(i as int).contains(c)
                    && hex_distance(c, center) <= radius),
                all@.no_duplicates(),
                v@.no_duplicates(),
            decreases all@.len() - i,
        {
            let c = all[i];
            let d = distance_i64(c, center);
            proof {
                lemma_take_one_more_contains(all@, i as int);
            }
            if d <= radius as i64 {
                let ghost before = v@;
                proof {
                    assert(!all@.take(i as int).contains(c)) by {
                        if all@.take(i as int).contains(c) {
                            let j = choose|j: int| 0 <= j < i && all@.take(i as int)[j] == c;
                            assert(all@[j] == all@[i as int]);
                        }
                    }
                    assert(!before.contains(c));
                }
                v.push(c);
                proof {
                    assert forall|x: HexCoord| #[trigger] v@.contains(x) <==> (before.contains(x)
                        || x == c) by {
                        if v@.contains(x) {
                            let j = choose|j: int| 0 <= j < v@.len() && v@[j] == x;
                            if j < before.len() {
                                assert(before[j] == x);
                            }
                        }
                        if before.contains(x) {
                            let j = choose|j: int| 0 <= j < before.len() && before[j] == x;
                            assert(v@[j] == x);
                        }
                        if x == c {
                            assert(v@[before.len() as int] == x);
                        }
                    }
                }
            }
            i += 1;
        }
        proof {
            assert(all@.take(all@.len() as int) =~= all@);
        }
        v
    }

    /// Add a fresh hexagon at `coord`, replacing any hexagon there.
    pub fn add_hex(&mut self, coord: HexCoord)
        requires
            terrain_seed_computable(coord),
        ensures
            final(self)@ == old(self)@.insert(coord, fresh_hexagon(coord)),
    {
        proof {
            use_type_invariant(&*self);
            lemma_keyed_insert(self.hexagons@, coord, fresh_hexagon(coord));
        }
        let hexagon = Hexagon::new(coord);
        let mut store = self.take_store();
        store.insert(compute_hex_key(coord), hexagon);
        self.hexagons = store;
    }

    /// Add a fresh hexagon with the given terrain at `coord`, replacing any
    /// hexagon there.
    pub fn add_hex_with_sprite(&mut self, coord: HexCoord, sprite: SpriteType)
        requires
            terrain_seed_computable(coord),
        ensures
            final(self)@ == old(self)@.insert(coord, with_sprite(fresh_hexagon(coord), sprite)),
    {
        proof {
            use_type_invariant(&*self);
            lemma_keyed_insert(self.hexagons@, coord, with_sprite(fresh_hexagon(coord), sprite));
        }
        let mut hexagon = Hexagon::new(coord);
        hexagon.set_sprite(sprite);
        let mut store = self.take_store();
        store.insert(compute_hex_key(coord), hexagon);
        self.hexagons = store;
    }

    /// Remove the hexagon at `coord`, returning it if there was one.
    pub fn remove_hex(&mut self, coord: HexCoord) -> (removed: Option<Hexagon>)
        ensures
            final(self)@ == old(self)@.remove(coord),
            removed == (if old(self)@.contains_key(coord) {
                Some(old(self)@[coord])
            } else {
                None
            }),
    {
        proof {
            use_type_invariant(&*self);
            lemma_keyed_remove(self.hexagons@, coord);
        }
        let k = compute_hex_key(coord);
        let mut store = self.take_store();
        let removed = store.remove(&k);
        proof {
            lemma_keyed_remove(old(self).hexagons@, coord);
        }
        self.hexagons = store;
        removed
    }

    /// Remove every hexagon.
    pub fn clear(&mut self)
        ensures
            final(self)@ == Map::<HexCoord, Hexagon>::empty(),
    {
        self.hexagons = HashMap::new();
        assert(self@ =~= Map::<HexCoord, Hexagon>::empty());
    }

    /// The hexagon at `coord`, if any.
    pub fn get_hex_at(&self, coord: HexCoord) -> (h: Option<&Hexagon>)
        ensures
            h == (if self@.contains_key(coord) {
                Some(&self@[coord])
            } else {
                None
            }),
            h matches Some(hex) ==> hex.coord == coord,
    {
        proof {
            use_type_invariant(self);
            lemma_keys_match_coords(self.hexagons@);
        }
        let k = compute_hex_key(coord);
        self.hexagons.get(&k)
    }
}

} // verus!
