//! Axial hexagon coordinates, sprite kinds and the per-hex state model.
use vstd::prelude::*;

verus! {

/// Absolute value of a mathematical integer.
pub open spec fn abs_int(x: int) -> int {
    if x < 0 { -x } else { x }
}

/// `x` is a value of `i32`.
pub open spec fn in_i32(x: int) -> bool {
    i32::MIN <= x <= i32::MAX
}

/// `x` is a value of `i32` whose absolute value is also a value of `i32`.
pub open spec fn abs_in_i32(x: int) -> bool {
    i32::MIN < x <= i32::MAX
}

/// Absolute value of an `i32` that is not `i32::MIN`.
pub fn abs_i32(x: i32) -> (r: i32)
    requires
        x != i32::MIN,
    ensures
        r == abs_int(x as int),
{
    if x < 0 {
        -x
    } else {
        x
    }
}

/// Axial coordinates for a hexagonal grid (flat-top orientation): `q` is the
/// column, `r` the row.
#[derive(Clone, Copy, Debug, PartialEq, Eq, Structural, Hash)]
pub struct HexCoord {
    pub q: i32,
    pub r: i32,
}

/// Hex distance between two axial positions given by their coordinates.
pub open spec fn axial_distance(q1: int, r1: int, q2: int, r2: int) -> int {
    (abs_int(q1 - q2) + abs_int(q1 + r1 - q2 - r2) + abs_int(r1 - r2)) / 2
}

/// Hex distance between two coordinates.
pub open spec fn hex_distance(a: HexCoord, b: HexCoord) -> int {
    axial_distance(a.q as int, a.r as int, b.q as int, b.r as int)
}

/// Every intermediate value of the `i32` distance computation, in the order
/// in which it is evaluated, stays within `i32` (the computation does not
/// overflow).
pub open spec fn axial_distance_computable(q1: int, r1: int, q2: int, r2: int) -> bool {
    &&& abs_in_i32(q1 - q2)
    &&& in_i32(q1 + r1)
    &&& in_i32(q1 + r1 - q2)
    &&& abs_in_i32(q1 + r1 - q2 - r2)
    &&& abs_in_i32(r1 - r2)
    &&& in_i32(abs_int(q1 - q2) + abs_int(q1 + r1 - q2 - r2))
    &&& in_i32(abs_int(q1 - q2) + abs_int(q1 + r1 - q2 - r2) + abs_int(r1 - r2))
}

/// The distance between `a` and `b` can be computed in `i32`.
pub open spec fn distance_computable(a: HexCoord, b: HexCoord) -> bool {
    axial_distance_computable(a.q as int, a.r as int, b.q as int, b.r as int)
}

/// Computes the hex distance with the `i32` arithmetic of the grid.
pub fn axial_distance_i32(q1: i32, r1: i32, q2: i32, r2: i32) -> (d: i32)
    requires
        axial_distance_computable(q1 as int, r1 as int, q2 as int, r2 as int),
    ensures
        d == axial_distance(q1 as int, r1 as int, q2 as int, r2 as int),
{
    let a = abs_i32(q1 - q2);
    let b = abs_i32(q1 + r1 - q2 - r2);
    let c = abs_i32(r1 - r2);
    (a + b + c) / 2
}

/// The six axial offsets of the neighbors, in the order of `HexCoord::neighbors`:
/// north, northeast, southeast, south, southwest, northwest.
pub open spec fn neighbor_offset(i: int) -> (int, int) {
    if i == 0 {
        (0, -1)
    } else if i == 1 {
        (1, -1)
    } else if i == 2 {
        (1, 0)
    } else if i == 3 {
        (0, 1)
    } else if i == 4 {
        (-1, 1)
    } else {
        (-1, 0)
    }
}

/// All six neighbors of `c` can be formed without leaving `i32`.
pub open spec fn neighbors_computable(c: HexCoord) -> bool {
    &&& c.q < i32::MAX
    &&& c.q > i32::MIN
    &&& c.r < i32::MAX
    &&& c.r > i32::MIN
}

/// The neighbor of `c` in direction `i` (0 to 5).
pub open spec fn neighbor_of(c: HexCoord, i: int) -> HexCoord {
    HexCoord {
        q: (c.q + neighbor_offset(i).0) as i32,
        r: (c.r + neighbor_offset(i).1) as i32,
    }
}

/// `n` is one of the six neighbors of `c`.
pub open spec fn is_neighbor(c: HexCoord, n: HexCoord) -> bool {
    exists|i: int| 0 <= i < 6 && n == #[trigger] neighbor_of(c, i)
}


/// The hex distance is the largest of the three cube-coordinate differences.
pub proof fn lemma_axial_distance_is_max(q1: int, r1: int, q2: int, r2: int)
    ensures
        ({
            let x = abs_int(q1 - q2);
            let y = abs_int(r1 - r2);
            let z = abs_int(q1 + r1 - q2 - r2);
            &&& axial_distance(q1, r1, q2, r2) >= x
            &&& axial_distance(q1, r1, q2, r2) >= y
            &&& axial_distance(q1, r1, q2, r2) >= z
            &&& (axial_distance(q1, r1, q2, r2) == x || axial_distance(q1, r1, q2, r2) == y
                || axial_distance(q1, r1, q2, r2) == z)
            &&& 2 * axial_distance(q1, r1, q2, r2) == x + y + z
        }),
{
}

/// Law: the distance from a hex to itself is zero, and zero only there.
pub proof fn law_distance_zero_iff_equal(a: HexCoord, b: HexCoord)
    ensures
        hex_distance(a, b) == 0 <==> a == b,
        hex_distance(a, b) >= 0,
{
    lemma_axial_distance_is_max(a.q as int, a.r as int, b.q as int, b.r as int);
}

/// Law: the distance is symmetric.
pub proof fn law_distance_symmetric(a: HexCoord, b: HexCoord)
    ensures
        hex_distance(a, b) == hex_distance(b, a),
{
    lemma_axial_distance_is_max(a.q as int, a.r as int, b.q as int, b.r as int);
    lemma_axial_distance_is_max(b.q as int, b.r as int, a.q as int, a.r as int);
}

/// Law: the distance obeys the triangle inequality.
pub proof fn law_distance_triangle(a: HexCoord, b: HexCoord, c: HexCoord)
    ensures
        hex_distance(a, c) <= hex_distance(a, b) + hex_distance(b, c),
{
    lemma_axial_distance_is_max(a.q as int, a.r as int, b.q as int, b.r as int);
    lemma_axial_distance_is_max(b.q as int, b.r as int, c.q as int, c.r as int);
    lemma_axial_distance_is_max(a.q as int, a.r as int, c.q as int, c.r as int);
}

/// Law: each of the six neighbors of a hex is at distance one from it, and
/// every hex at distance one is one of the six neighbors.
pub proof fn law_neighbors_are_distance_one(c: HexCoord, n: HexCoord)
    requires
        neighbors_computable(c),
    ensures
        is_neighbor(c, n) <==> hex_distance(c, n) == 1,
{
    lemma_axial_distance_is_max(c.q as int, c.r as int, n.q as int, n.r as int);
    if is_neighbor(c, n) {
        let i = choose|i: int| 0 <= i < 6 && n == #[trigger] neighbor_of(c, i);
        assert(0 <= i < 6);
    }
    if hex_distance(c, n) == 1 {
        let dq = n.q - c.q;
        let dr = n.r - c.r;
        if dq == 0 && dr == -1 {
            assert(n == neighbor_of(c, 0));
        } else if dq == 1 && dr == -1 {
            assert(n == neighbor_of(c, 1));
        } else if dq == 1 && dr == 0 {
            assert(n == neighbor_of(c, 2));
        } else if dq == 0 && dr == 1 {
            assert(n == neighbor_of(c, 3));
        } else if dq == -1 && dr == 1 {
            assert(n == neighbor_of(c, 4));
        } else {
            assert(n == neighbor_of(c, 5));
        }
    }
}

/// Law: from any hex other than the target, some neighbor lies one step
/// closer to the target (the grid has no dead ends).
pub proof fn law_neighbor_closer(c: HexCoord, target: HexCoord) -> (i: int)
    requires
        c != target,
        neighbors_computable(c),
    ensures
        0 <= i < 6,
        hex_distance(neighbor_of(c, i), target) == hex_distance(c, target) - 1,
{
    let dq = target.q - c.q;
    let dr = target.r - c.r;
    let k = if dq == 0 && dr < 0 {
        0int
    } else if dq > 0 && dr < 0 {
        1int
    } else if dq > 0 && dr >= 0 {
        2int
    } else if dq == 0 && dr > 0 {
        3int
    } else if dq < 0 && dr > 0 {
        4int
    } else {
        5int
    };
    let n = neighbor_of(c, k);
    lemma_axial_distance_is_max(c.q as int, c.r as int, target.q as int, target.r as int);
    lemma_axial_distance_is_max(n.q as int, n.r as int, target.q as int, target.r as int);
    k
}

/// Integer key that identifies a coordinate in hash maps.
pub open spec fn hex_key(c: HexCoord) -> u64 {
    ((c.q as int + 0x8000_0000) * 0x1_0000_0000 + (c.r as int + 0x8000_0000)) as u64
}

pub(crate) proof fn lemma_hex_key_injective(a: HexCoord, b: HexCoord)
    ensures
        hex_key(a) == hex_key(b) ==> a == b,
{
    let xa = a.q as int + 0x8000_0000;
    let ya = a.r as int + 0x8000_0000;
    let xb = b.q as int + 0x8000_0000;
    let yb = b.r as int + 0x8000_0000;
    assert(0 <= xa * 0x1_0000_0000 + ya < 0x1_0000_0000_0000_0000);
    assert(0 <= xb * 0x1_0000_0000 + yb < 0x1_0000_0000_0000_0000);
}

pub(crate) fn compute_hex_key(c: HexCoord) -> (k: u64)
    ensures
        k == hex_key(c),
{
    let x: u64 = (c.q as i64 + 0x8000_0000i64) as u64;
    let y: u64 = (c.r as i64 + 0x8000_0000i64) as u64;
    assert(x * 0x1_0000_0000 + y < 0x1_0000_0000_0000_0000);
    x * 0x1_0000_0000 + y
}

/// Different coordinates have different keys.
pub(crate) proof fn lemma_hex_key_injective_all()
    ensures
        forall|a: HexCoord, b: HexCoord| #[trigger] hex_key(a) == #[trigger] hex_key(b) ==> a == b,
{
    assert forall|a: HexCoord, b: HexCoord| #[trigger] hex_key(a) == #[trigger] hex_key(b) implies a
        == b by {
        lemma_hex_key_injective(a, b);
    }
}

impl HexCoord {
    /// Construct a new `HexCoord`.
    pub fn new(q: i32, r: i32) -> (c: HexCoord)
        ensures
            c.q == q,
            c.r == r,
    {
        HexCoord { q, r }
    }

    /// Distance between two hex coordinates, in hex steps.
    pub fn distance(self, other: HexCoord) -> (d: i32)
        requires
            distance_computable(self, other),
        ensures
            d == hex_distance(self, other),
    {
        axial_distance_i32(self.q, self.r, other.q, other.r)
    }

    /// The six neighboring coordinates (flat-top orientation), in the order
    /// north, northeast, southeast, south, southwest, northwest.
    pub fn neighbors(self) -> (ns: [HexCoord; 6])
        requires
            neighbors_computable(self),
        ensures
            forall|i: int| 0 <= i < 6 ==> #[trigger] ns@[i] == neighbor_of(self, i),
    {
        [
            HexCoord::new(self.q, self.r - 1),
            HexCoord::new(self.q + 1, self.r - 1),
            HexCoord::new(self.q + 1, self.r),
            HexCoord::new(self.q, self.r + 1),
            HexCoord::new(self.q - 1, self.r + 1),
            HexCoord::new(self.q - 1, self.r),
        ]
    }
}


/// Sprite kinds for hexagons: terrain, units and items.
#[derive(Clone, Copy, Debug, PartialEq, Eq, Structural, Hash)]
pub enum SpriteType {
    Empty,
    Forest,
    Forest2,
    Grasslands,
    HauntedWoods,
    Hills,
    Mountain,
    Swamp,
    Unit,
    Item,
}

/// Texture file of each sprite kind, where it has one.
pub open spec fn texture_path_of(s: SpriteType) -> Option<Seq<char>> {
    match s {
        SpriteType::Empty => None,
        SpriteType::Forest => Some("terrain_sprites/forest.png"@),
        SpriteType::Forest2 => Some("terrain_sprites/forest2.png"@),
        SpriteType::Grasslands => Some("terrain_sprites/grasslands.png"@),
        SpriteType::HauntedWoods => Some("terrain_sprites/haunted_woods.png"@),
        SpriteType::Hills => Some("terrain_sprites/hills.png"@),
        SpriteType::Mountain => Some("terrain_sprites/mountain.png"@),
        SpriteType::Swamp => Some("terrain_sprites/swamp.png"@),
        SpriteType::Unit => None,
        SpriteType::Item => Some("item_sprites/sword.png"@),
    }
}

/// Texture slot of a sprite kind: the terrains in declaration order from 0,
/// the item sprite 7, and -1 for sprites without a texture.
pub open spec fn texture_id_of(s: SpriteType) -> int {
    match s {
        SpriteType::Empty => -1,
        SpriteType::Forest => 0,
        SpriteType::Forest2 => 1,
        SpriteType::Grasslands => 2,
        SpriteType::HauntedWoods => 3,
        SpriteType::Hills => 4,
        SpriteType::Mountain => 5,
        SpriteType::Swamp => 6,
        SpriteType::Unit => -1,
        SpriteType::Item => 7,
    }
}

/// The seven terrain kinds, in declaration order.
pub open spec fn terrain_seq() -> Seq<SpriteType> {
    seq![
        SpriteType::Forest,
        SpriteType::Forest2,
        SpriteType::Grasslands,
        SpriteType::HauntedWoods,
        SpriteType::Hills,
        SpriteType::Mountain,
        SpriteType::Swamp,
    ]
}

/// The terrain chosen for a seed: the `|seed| mod 7`-th terrain kind.
pub open spec fn terrain_for_seed(seed: int) -> SpriteType {
    terrain_seq()[abs_int(seed) % 7]
}

/// A sprite kind is terrain when it is neither `Empty`, a unit nor an item.
pub open spec fn is_terrain(s: SpriteType) -> bool {
    !(s is Empty || s is Unit || s is Item)
}

impl SpriteType {
    /// Texture file path of the sprite, if it has one.
    pub fn get_texture_path(self) -> (p: Option<&'static str>)
        ensures
            match p {
                Some(path) => texture_path_of(self) == Some(path@),
                None => texture_path_of(self) is None,
            },
    {
        match self {
            SpriteType::Empty => None,
            SpriteType::Forest => Some("terrain_sprites/forest.png"),
            SpriteType::Forest2 => Some("terrain_sprites/forest2.png"),
            SpriteType::Grasslands => Some("terrain_sprites/grasslands.png"),
            SpriteType::HauntedWoods => Some("terrain_sprites/haunted_woods.png"),
            SpriteType::Hills => Some("terrain_sprites/hills.png"),
            SpriteType::Mountain => Some("terrain_sprites/mountain.png"),
            SpriteType::Swamp => Some("terrain_sprites/swamp.png"),
            SpriteType::Unit => None,
            SpriteType::Item => Some("item_sprites/sword.png"),
        }
    }

    /// All terrain sprite kinds (every kind but `Empty`, `Unit` and `Item`).
    pub fn all_terrain() -> (ts: [SpriteType; 7])
        ensures
            ts@ == terrain_seq(),
    {
        let ts = [
            SpriteType::Forest,
            SpriteType::Forest2,
            SpriteType::Grasslands,
            SpriteType::HauntedWoods,
            SpriteType::Hills,
            SpriteType::Mountain,
            SpriteType::Swamp,
        ];
        assert(ts@ =~= terrain_seq());
        ts
    }

    /// Texture slot of the sprite in the renderer's texture array, or -1
    /// for sprites drawn as plain colour.
    pub fn get_texture_id(self) -> (id: i32)
        ensures
            id == texture_id_of(self),
    {
        match self {
            SpriteType::Empty => -1,
            SpriteType::Forest => 0,
            SpriteType::Forest2 => 1,
            SpriteType::Grasslands => 2,
            SpriteType::HauntedWoods => 3,
            SpriteType::Hills => 4,
            SpriteType::Mountain => 5,
            SpriteType::Swamp => 6,
            SpriteType::Unit => -1,
            SpriteType::Item => 7,
        }
    }

    /// A deterministic pseudo-random terrain kind for a seed.
    pub fn random_terrain(seed: i32) -> (t: SpriteType)
        requires
            seed != i32::MIN,
        ensures
            t == terrain_for_seed(seed as int),
            is_terrain(t),
    {
        let all = Self::all_terrain();
        let idx = (abs_i32(seed) % 7) as usize;
        all[idx]
    }
}

/// Law: a sprite has a texture slot exactly when it has a texture file, and
/// the slot of each terrain kind is its position in `all_terrain`.
pub proof fn law_texture_slots_match_paths(s: SpriteType)
    ensures
        texture_id_of(s) >= 0 <==> texture_path_of(s) is Some,
        forall|i: int| 0 <= i < 7 ==> texture_id_of(#[trigger] terrain_seq()[i]) == i,
{
}

/// Law: every terrain kind is terrain, and the seeded choice always is.
pub proof fn law_all_terrain_is_terrain(seed: int)
    ensures
        forall|i: int| 0 <= i < 7 ==> is_terrain(#[trigger] terrain_seq()[i]),
        is_terrain(terrain_for_seed(seed)),
        terrain_seq().len() == 7,
{
    assert(0 <= abs_int(seed) % 7 < 7);
}

/// Highlighting applied to hexagons for UI feedback.
#[derive(Clone, Copy, Debug, PartialEq, Eq, Structural)]
pub enum HighlightType {
    Plain,
    Selected,
    MovementRange,
}

/// State of one hexagon of the map: its coordinate, its terrain sprite, the
/// optional unit, item and structure sprites drawn over it, its highlight and
/// an optional text overlay.
#[derive(Clone, Debug)]
pub struct Hexagon {
    pub coord: HexCoord,
    pub sprite: SpriteType,
    pub unit_sprite: Option<SpriteType>,
    pub item_sprite: Option<SpriteType>,
    pub structure_sprite: Option<SpriteType>,
    pub highlight: HighlightType,
    pub text_overlay: Option<String>,
}

/// The seed from which a fresh hexagon picks its terrain.
pub open spec fn terrain_seed(c: HexCoord) -> int {
    c.q * 17 + c.r * 23 + c.q * c.r
}

/// The terrain seed of `c` can be computed in `i32` (each intermediate value
/// fits) and is not `i32::MIN`.
pub open spec fn terrain_seed_computable(c: HexCoord) -> bool {
    &&& in_i32(c.q * 17)
    &&& in_i32(c.r * 23)
    &&& in_i32(c.q * 17 + c.r * 23)
    &&& in_i32(c.q * c.r)
    &&& abs_in_i32(terrain_seed(c))
}

/// The fresh hexagon at `c`: seeded terrain, no overlays, no highlight.
pub open spec fn fresh_hexagon(c: HexCoord) -> Hexagon {
    Hexagon {
        coord: c,
        sprite: terrain_for_seed(terrain_seed(c)),
        unit_sprite: None,
        item_sprite: None,
        structure_sprite: None,
        highlight: HighlightType::Plain,
        text_overlay: None,
    }
}

/// Where an item marker is drawn on its hex.
#[derive(Clone, Copy, Debug, PartialEq, Eq, Structural)]
pub enum ItemPlacement {
    /// Full size, in the middle of the hex.
    Centered,
    /// Smaller, in the upper-right corner, beside a unit.
    Corner,
}

/// What the terrain, unit and item layers draw on one hex.
#[derive(Clone, Copy, Debug, PartialEq, Eq, Structural)]
pub struct HexLayers {
    /// Terrain drawn, if any.
    pub terrain: Option<SpriteType>,
    /// Whether a unit marker is drawn.
    pub unit: bool,
    /// Where an item marker is drawn, if one is.
    pub item: Option<ItemPlacement>,
}

/// The layers of a hexagon.
pub open spec fn layers_of(h: Hexagon) -> HexLayers {
    let unit = h.unit_sprite == Some(SpriteType::Unit);
    HexLayers {
        terrain: if h.sprite == SpriteType::Empty { None } else { Some(h.sprite) },
        unit,
        item: if h.item_sprite == Some(SpriteType::Item) {
            Some(if unit { ItemPlacement::Corner } else { ItemPlacement::Centered })
        } else {
            None
        },
    }
}

/// Law: an item marker moves to the corner of its hex exactly when a unit
/// marker is drawn on the same hex, and is centred otherwise.
pub proof fn law_item_corner_beside_unit(h: Hexagon)
    ensures
        layers_of(h).item == Some(ItemPlacement::Corner) <==> (layers_of(h).item is Some
            && layers_of(h).unit),
        layers_of(h).item == Some(ItemPlacement::Centered) <==> (layers_of(h).item is Some
            && !layers_of(h).unit),
{
}

/// Sprite shown for a hexagon: its unit if present, else its terrain.
pub open spec fn display_sprite(h: Hexagon) -> SpriteType {
    match h.unit_sprite {
        Some(u) => u,
        None => h.sprite,
    }
}

impl Hexagon {
    /// A new hexagon at `coord` with a terrain chosen from its coordinate,
    /// no unit, item or structure, and no highlight.
    pub fn new(coord: HexCoord) -> (h: Hexagon)
        requires
            terrain_seed_computable(coord),
        ensures
            h == fresh_hexagon(coord),
    {
        let seed = coord.q * 17 + coord.r * 23 + coord.q * coord.r;
        let sprite = SpriteType::random_terrain(seed);
        Hexagon {
            coord,
            sprite,
            unit_sprite: None,
            item_sprite: None,
            structure_sprite: None,
            highlight: HighlightType::Plain,
            text_overlay: None,
        }
    }

    /// Set the unit sprite (drawn over the terrain).
    pub fn set_unit_sprite(&mut self, unit_sprite: Option<SpriteType>)
        ensures
            *final(self) == (Hexagon { unit_sprite, ..*old(self) }),
    {
        self.unit_sprite = unit_sprite;
    }

    /// Set the item sprite (drawn over terrain and units).
    pub fn set_item_sprite(&mut self, item_sprite: Option<SpriteType>)
        ensures
            *final(self) == (Hexagon { item_sprite, ..*old(self) }),
    {
        self.item_sprite = item_sprite;
    }

    /// Set the structure sprite (drawn over the terrain).
    pub fn set_structure_sprite(&mut self, structure_sprite: Option<SpriteType>)
        ensures
            *final(self) == (Hexagon { structure_sprite, ..*old(self) }),
    {
        self.structure_sprite = structure_sprite;
    }

    /// Set the terrain sprite (base layer).
    pub fn set_sprite(&mut self, sprite: SpriteType)
        ensures
            *final(self) == (Hexagon { sprite, ..*old(self) }),
    {
        self.sprite = sprite;
    }

    /// Set the highlight.
    pub fn set_highlight(&mut self, highlight: HighlightType)
        ensures
            *final(self) == (Hexagon { highlight, ..*old(self) }),
    {
        self.highlight = highlight;
    }

    /// Clear the highlight.
    pub fn clear_highlight(&mut self)
        ensures
            *final(self) == (Hexagon { highlight: HighlightType::Plain, ..*old(self) }),
    {
        self.highlight = HighlightType::Plain;
    }

    /// Set or remove the text overlay.
    pub fn set_text_overlay(&mut self, text: Option<String>)
        ensures
            *final(self) == (Hexagon { text_overlay: text, ..*old(self) }),
    {
        self.text_overlay = text;
    }

    /// Remove the text overlay.
    pub fn clear_text_overlay(&mut self)
        ensures
            *final(self) == (Hexagon { text_overlay: None, ..*old(self) }),
    {
        self.text_overlay = None;
    }

    /// The sprite to display: the unit if present, else the terrain.
    pub fn get_display_sprite(&self) -> (s: SpriteType)
        ensures
            s == display_sprite(*self),
    {
        match self.unit_sprite {
            Some(u) => u,
            None => self.sprite,
        }
    }

    /// Whether a unit stands on the hex.
    pub fn has_unit(&self) -> (b: bool)
        ensures
            b == self.unit_sprite is Some,
    {
        self.unit_sprite.is_some()
    }

    /// Whether a structure stands on the hex.
    pub fn has_structure(&self) -> (b: bool)
        ensures
            b == self.structure_sprite is Some,
    {
        self.structure_sprite.is_some()
    }

    /// Whether the hex shows a sprite (a terrain other than `Empty`, or a unit).
    pub fn has_sprite(&self) -> (b: bool)
        ensures
            b == (self.sprite != SpriteType::Empty || self.unit_sprite is Some),
    {
        self.sprite != SpriteType::Empty || self.unit_sprite.is_some()
    }

    /// What the map layers draw on this hex: the terrain (unless `Empty`), a
    /// unit marker when its unit sprite is the unit sprite, and an item
    /// marker when its item sprite is the item sprite, moved to the corner
    /// when a unit marker is drawn too.
    pub fn layers(&self) -> (l: HexLayers)
        ensures
            l == layers_of(*self),
    {
        let terrain = if self.sprite == SpriteType::Empty { None } else { Some(self.sprite) };
        let unit = match self.unit_sprite {
            Some(SpriteType::Unit) => true,
            _ => false,
        };
        let item = match self.item_sprite {
            Some(SpriteType::Item) => Some(if unit { ItemPlacement::Corner } else { ItemPlacement::Centered }),
            _ => None,
        };
        HexLayers { terrain, unit, item }
    }
}

} // verus!
