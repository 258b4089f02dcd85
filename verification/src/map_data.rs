//! Map files: the entries a map file lists for its hexes, and the index of
//! those entries by coordinate.
use vstd::prelude::*;
use std::collections::HashMap;
use vstd::std_specs::iter::IteratorSpec;
use crate::hexagon::{compute_hex_key, hex_key, lemma_hex_key_injective_all, HexCoord, SpriteType};

verus! {

broadcast use vstd::std_specs::hash::group_hash_axioms;

/// One hex of a map file: its coordinate, its terrain, and the unit placed
/// on it, if any.
#[derive(Debug, Clone)]
pub struct MapHexEntry {
    pub hex_coord: HexCoord,
    pub sprite_type: SpriteType,
    pub unit: Option<String>,
}

/// The entries of a map file by coordinate: a later entry for a coordinate
/// replaces an earlier one.
pub open spec fn entries_map(entries: Seq<MapHexEntry>) -> Map<HexCoord, MapHexEntry>
    decreases entries.len(),
{
    if entries.len() == 0 {
        Map::empty()
    } else {
        entries_map(entries.drop_last()).insert(entries.last().hex_coord, entries.last())
    }
}

/// The entries a keyed store describes, by coordinate.
pub open spec fn keyed_entries(m: Map<u64, MapHexEntry>) -> Map<HexCoord, MapHexEntry> {
    Map::new(|c: HexCoord| m.contains_key(hex_key(c)), |c: HexCoord| m[hex_key(c)])
}

/// Every entry of a keyed store is stored under the key of its coordinate.
pub open spec fn entry_keys_match(m: Map<u64, MapHexEntry>) -> bool {
    forall|k: u64| #[trigger] m.contains_key(k) ==> hex_key(m[k].hex_coord) == k
}

proof fn lemma_keyed_entries_insert(m: Map<u64, MapHexEntry>, e: MapHexEntry)
    ensures
        keyed_entries(m.insert(hex_key(e.hex_coord), e)) == keyed_entries(m).insert(
            e.hex_coord,
            e,
        ),
{
    lemma_hex_key_injective_all();
    assert(keyed_entries(m.insert(hex_key(e.hex_coord), e)) =~= keyed_entries(m).insert(
        e.hex_coord,
        e,
    ));
}

proof fn lemma_listed_entries_distinct(m: Map<u64, MapHexEntry>, all: Seq<MapHexEntry>)
    requires
        entry_keys_match(m),
        m.dom().finite(),
        all.to_set() == m.values(),
        all.len() == m.dom().len(),
    ensures
        forall|i: int, j: int|
            0 <= i < all.len() && 0 <= j < all.len() && i != j ==> #[trigger] all[i].hex_coord
                != #[trigger] all[j].hex_coord,
{
    let f = |k: u64| m[k];
    assert(vstd::relations::injective_on(f, m.dom())) by {
        assert forall|k1: u64, k2: u64|
            m.dom().contains(k1) && m.dom().contains(k2) && #[trigger] f(k1) == #[trigger] f(k2)
            implies k1 == k2 by {
            assert(hex_key(m[k1].hex_coord) == k1);
            assert(hex_key(m[k2].hex_coord) == k2);
        }
    }
    assert(m.dom().map(f) =~= m.values()) by {
        assert forall|v: MapHexEntry| #[trigger] m.values().contains(v) implies m.dom().map(
            f,
        ).contains(v) by {
            let k = choose|k: u64| m.contains_key(k) && m[k] == v;
            assert(f(k) == v);
        }
    }
    vstd::set_lib::lemma_map_size(m.dom(), m.values(), f);
    all.lemma_no_dup_set_cardinality();
    assert forall|i: int, j: int|
        0 <= i < all.len() && 0 <= j < all.len() && i != j implies #[trigger] all[i].hex_coord
        != #[trigger] all[j].hex_coord by {
        assert(all.to_set().contains(all[i]));
        assert(all.to_set().contains(all[j]));
        let ki = choose|k: u64| m.contains_key(k) && m[k] == all[i];
        let kj = choose|k: u64| m.contains_key(k) && m[k] == all[j];
        assert(hex_key(all[i].hex_coord) == ki);
        assert(hex_key(all[j].hex_coord) == kj);
    }
}

/// The entries of a map, indexed by coordinate.
pub struct MapHexIndex {
    entries: HashMap<u64, MapHexEntry>,
}

impl MapHexIndex {
    #[verifier::type_invariant]
    spec fn keys_consistent(self) -> bool {
        entry_keys_match(self.entries@)
    }
}

impl View for MapHexIndex {
    type V = Map<HexCoord, MapHexEntry>;

    closed spec fn view(&self) -> Map<HexCoord, MapHexEntry> {
        keyed_entries(self.entries@)
    }
}

impl MapHexIndex {
    /// Index the entries of a map file; a later entry for a coordinate
    /// replaces an earlier one.
    pub fn from_entries(entries: Vec<MapHexEntry>) -> (index: MapHexIndex)
        ensures
            index@ == entries_map(entries@),
    {
        let mut store: HashMap<u64, MapHexEntry> = HashMap::new();
        let mut i: usize = 0;
        proof {
            assert(keyed_entries(store@) =~= entries_map(entries@.take(0)));
        }
        while i < entries.len()
            invariant
                0 <= i <= entries@.len(),
                keyed_entries(store@) == entries_map(entries@.take(i as int)),
                entry_keys_match(store@),
            decreases entries@.len() - i,
        {
            let entry = entries[i].clone_entry();
            let ghost before = store@;
            store.insert(compute_hex_key(entry.hex_coord), entry);
            proof {
                lemma_keyed_entries_insert(before, entries@[i as int]);
                assert(entries@.take(i + 1).drop_last() =~= entries@.take(i as int));
            }
            i = i + 1;
        }
        proof {
            assert(entries@.take(entries@.len() as int) =~= entries@);
        }
        MapHexIndex { entries: store }
    }

    /// The entry for `hex_coord`, if the map has one.
    pub fn get_hex_entry(&self, hex_coord: &HexCoord) -> (e: Option<&MapHexEntry>)
        ensures
            e == (if self@.contains_key(*hex_coord) {
                Some(&self@[*hex_coord])
            } else {
                None
            }),
    {
        let k = compute_hex_key(*hex_coord);
        self.entries.get(&k)
    }

    /// The coordinates of all hexes of the map, each once, in no particular
    /// order.
    pub fn get_all_hex_coords(&self) -> (v: Vec<HexCoord>)
        ensures
            forall|c: HexCoord| #[trigger] self@.contains_key(c) <==> v@.contains(c),
            v@.no_duplicates(),
    {
        proof {
            use_type_invariant(self);
        }
        let mut v: Vec<HexCoord> = Vec::new();
        let ghost all = vstd::std_specs::hash::spec_values_iter(&self.entries).remaining();
        for e in it: self.entries.values()
            invariant
                it.seq() == all,
                v@.len() == it.index(),
                forall|j: int| 0 <= j < it.index() ==> v@[j] == (#[trigger] it.seq()[j]).hex_coord,
        {
            v.push(e.hex_coord);
        }
        proof {
            let vals = self.entries@.values();
            assert(all.unref().to_set() == vals);
            assert(v@.len() == all.len());
            lemma_listed_entries_distinct(self.entries@, all.unref());
            assert forall|i: int, j: int| 0 <= i < v@.len() && 0 <= j < v@.len() && i != j
                implies v@[i] != v@[j] by {
                assert(all.unref()[i] == *all[i]);
                assert(all.unref()[j] == *all[j]);
            }
            assert forall|c: HexCoord| #[trigger] self@.contains_key(c) <==> v@.contains(c) by {
                if self@.contains_key(c) {
                    let e = self.entries@[hex_key(c)];
                    assert(vals.contains(e));
                    assert(all.unref().to_set().contains(e));
                    let j = choose|j: int| 0 <= j < all.len() && all.unref()[j] == e;
                    assert(v@[j] == c);
                }
                if v@.contains(c) {
                    let j = choose|j: int| 0 <= j < v@.len() && v@[j] == c;
                    let e = *all[j];
                    assert(all.unref()[j] == e);
                    assert(all.unref().to_set().contains(e));
                    assert(vals.contains(e));
                    let k = choose|k: u64| self.entries@.contains_key(k) && self.entries@[k] == e;
                    assert(hex_key(e.hex_coord) == k);
                }
            }
        }
        v
    }
}

impl MapHexEntry {
    /// A copy of this entry.
    pub fn clone_entry(&self) -> (e: MapHexEntry)
        ensures
            e == *self,
    {
        let unit = match &self.unit {
            Some(name) => Some(name.clone()),
            None => None,
        };
        MapHexEntry { hex_coord: self.hex_coord, sprite_type: self.sprite_type, unit }
    }
}


proof fn lemma_last_entry_wins(entries: Seq<MapHexEntry>, i: int)
    requires
        0 <= i < entries.len(),
        forall|j: int| i < j < entries.len() ==> entries[j].hex_coord != entries[i].hex_coord,
    ensures
        entries_map(entries).contains_key(entries[i].hex_coord),
        entries_map(entries)[entries[i].hex_coord] == entries[i],
    decreases entries.len(),
{
    if i < entries.len() - 1 {
        let rest = entries.drop_last();
        assert(entries[entries.len() - 1].hex_coord != entries[i].hex_coord);
        assert forall|j: int| i < j < rest.len() implies rest[j].hex_coord
            != rest[i].hex_coord by {
            assert(rest[j] == entries[j]);
        }
        lemma_last_entry_wins(rest, i);
    }
}

proof fn lemma_listed_coords(entries: Seq<MapHexEntry>, c: HexCoord)
    ensures
        entries_map(entries).contains_key(c) <==> exists|i: int|
            0 <= i < entries.len() && (#[trigger] entries[i]).hex_coord == c,
    decreases entries.len(),
{
    if entries.len() > 0 {
        let rest = entries.drop_last();
        lemma_listed_coords(rest, c);
        if exists|i: int| 0 <= i < rest.len() && (#[trigger] rest[i]).hex_coord == c {
            let i = choose|i: int| 0 <= i < rest.len() && (#[trigger] rest[i]).hex_coord == c;
            assert(entries[i] == rest[i]);
        }
        if exists|i: int| 0 <= i < entries.len() && (#[trigger] entries[i]).hex_coord == c {
            let i = choose|i: int| 0 <= i < entries.len() && (#[trigger] entries[i]).hex_coord
                == c;
            if i < rest.len() {
                assert(rest[i] == entries[i]);
            }
        }
    }
}

/// Law: the index of a map file holds an entry for exactly the coordinates
/// the file lists, and for each of them the last entry the file lists for
/// it.
pub proof fn law_index_keeps_last_entry(entries: Seq<MapHexEntry>, c: HexCoord)
    ensures
        entries_map(entries).contains_key(c) <==> exists|i: int|
            0 <= i < entries.len() && (#[trigger] entries[i]).hex_coord == c,
        forall|i: int|
            0 <= i < entries.len() && (#[trigger] entries[i]).hex_coord == c && (forall|j: int|
                i < j < entries.len() ==> entries[j].hex_coord != c) ==> entries_map(entries)[c]
                == entries[i],
{
    lemma_listed_coords(entries, c);
    assert forall|i: int|
        0 <= i < entries.len() && (#[trigger] entries[i]).hex_coord == c && (forall|j: int|
            i < j < entries.len() ==> entries[j].hex_coord != c) implies entries_map(entries)[c]
        == entries[i] by {
        lemma_last_entry_wins(entries, i);
    }
}


/// Number of cells of `cells` that hold a hex.
pub open spec fn count_filled(cells: Seq<Option<HexCoord>>) -> nat
    decreases cells.len(),
{
    if cells.len() == 0 {
        0
    } else {
        count_filled(cells.drop_last()) + if cells.last() is Some {
            1nat
        } else {
            0nat
        }
    }
}

proof fn lemma_cell_index(x: int, y: int, width: int, height: int)
    requires
        0 <= x < width,
        0 <= y < height,
    ensures
        0 <= y * width + x < width * height,
{
    assert(0 <= y * width) by (nonlinear_arith)
        requires
            0 <= y,
            0 <= width,
    ;
    assert(y * width + x < width * height) by (nonlinear_arith)
        requires
            0 <= x < width,
            0 <= y < height,
    ;
}

proof fn lemma_count_filled_update(cells: Seq<Option<HexCoord>>, i: int, v: Option<HexCoord>)
    requires
        0 <= i < cells.len(),
    ensures
        count_filled(cells.update(i, v)) + (if cells[i] is Some { 1int } else { 0int })
            == count_filled(cells) + (if v is Some { 1int } else { 0int }),
    decreases cells.len(),
{
    let u = cells.update(i, v);
    if i < cells.len() - 1 {
        lemma_count_filled_update(cells.drop_last(), i, v);
        assert(u.drop_last() =~= cells.drop_last().update(i, v));
    } else {
        assert(u.drop_last() =~= cells.drop_last());
    }
}

/// The hex under each point of a grid of `width` columns and `height` rows
/// of sample points over the map, stored row after row.
pub struct PixelLookup {
    width: usize,
    height: usize,
    cells: Vec<Option<HexCoord>>,
}

impl PixelLookup {
    #[verifier::type_invariant]
    spec fn sized(self) -> bool {
        self.cells@.len() == self.width * self.height
    }

    /// Number of columns.
    pub closed spec fn columns(&self) -> nat {
        self.width as nat
    }

    /// Number of rows.
    pub closed spec fn rows(&self) -> nat {
        self.height as nat
    }

    /// The cells, row after row.
    pub closed spec fn cells(&self) -> Seq<Option<HexCoord>> {
        self.cells@
    }

    /// The hex under the point in column `x` and row `y`.
    pub open spec fn cell(&self, x: int, y: int) -> Option<HexCoord> {
        self.cells()[y * self.columns() + x]
    }

    /// A grid of `width` x `height` points, none of them over a hex yet.
    pub fn new(width: usize, height: usize) -> (t: PixelLookup)
        requires
            width * height <= usize::MAX,
        ensures
            t.columns() == width,
            t.rows() == height,
            t.cells().len() == width * height,
            forall|i: int| 0 <= i < width * height ==> #[trigger] t.cells()[i] is None,
    {
        let n = width * height;
        let mut cells: Vec<Option<HexCoord>> = Vec::new();
        let mut i: usize = 0;
        while i < n
            invariant
                i <= n,
                cells@.len() == i,
                forall|j: int| 0 <= j < i ==> #[trigger] cells@[j] is None,
            decreases n - i,
        {
            cells.push(None);
            i += 1;
        }
        PixelLookup { width, height, cells }
    }

    /// Number of columns.
    pub fn width(&self) -> (w: usize)
        ensures
            w == self.columns(),
    {
        self.width
    }

    /// Number of rows.
    pub fn height(&self) -> (h: usize)
        ensures
            h == self.rows(),
    {
        self.height
    }

    /// Record the hex under the point in column `x` and row `y`.
    pub fn set_cell(&mut self, x: usize, y: usize, hex: Option<HexCoord>)
        requires
            x < old(self).columns(),
            y < old(self).rows(),
        ensures
            final(self).columns() == old(self).columns(),
            final(self).rows() == old(self).rows(),
            final(self).cells() == old(self).cells().update(y * old(self).columns() + x, hex),
    {
        proof {
            use_type_invariant(&*self);
            lemma_cell_index(x as int, y as int, self.width as int, self.height as int);
            assert(self.cells@.len() == self.cells.len());
        }
        let i = y * self.width + x;
        self.cells[i] = hex;
    }

    /// The hex under the point in column `x` and row `y`; `None` outside the
    /// grid.
    pub fn get_cell(&self, x: usize, y: usize) -> (hex: Option<HexCoord>)
        ensures
            hex == (if x < self.columns() && y < self.rows() {
                self.cell(x as int, y as int)
            } else {
                None
            }),
    {
        proof {
            use_type_invariant(self);
        }
        if x < self.width && y < self.height {
            proof {
                lemma_cell_index(x as int, y as int, self.width as int, self.height as int);
                assert(self.cells@.len() == self.cells.len());
            }
            self.cells[y * self.width + x]
        } else {
            None
        }
    }

    /// Number of points over a hex.
    pub fn filled_count(&self) -> (n: usize)
        ensures
            n == count_filled(self.cells()),
    {
        let mut n: usize = 0;
        let mut i: usize = 0;
        while i < self.cells.len()
            invariant
                i <= self.cells@.len(),
                n == count_filled(self.cells@.take(i as int)),
                n <= i,
            decreases self.cells@.len() - i,
        {
            proof {
                assert(self.cells@.take(i + 1).drop_last() =~= self.cells@.take(i as int));
            }
            if self.cells[i].is_some() {
                n += 1;
            }
            i += 1;
        }
        proof {
            assert(self.cells@.take(self.cells@.len() as int) =~= self.cells@);
        }
        n
    }
}

/// Law: recording the hex under a point changes the number of points over
/// a hex by at most one, up when a hex is recorded over an empty point and
/// down when an occupied point is cleared.
pub proof fn law_set_cell_adjusts_filled(cells: Seq<Option<HexCoord>>, i: int, v: Option<HexCoord>)
    requires
        0 <= i < cells.len(),
    ensures
        count_filled(cells.update(i, v)) == count_filled(cells) + (if v is Some { 1int } else {
            0int
        }) - (if cells[i] is Some { 1int } else { 0int }),
{
    lemma_count_filled_update(cells, i, v);
}

} // verus!
