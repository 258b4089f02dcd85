//! The registered data of the encyclopedia: units, terrains and mechanics,
//! as plain values (names, counts and the display text of categories).
use vstd::prelude::*;

verus! {

/// A game mechanic (or a guide topic rendered as one).
pub struct MechanicEntry {
    pub title: String,
    pub category: String,
    pub description: String,
    pub details: Vec<String>,
    pub examples: Vec<String>,
}

/// Combat statistics of a registered unit; the range category is kept as
/// its display text.
pub struct UnitStatsInfo {
    pub health: u32,
    pub max_health: u32,
    pub attack_strength: u32,
    pub defense: u32,
    pub movement_speed: u32,
    pub range_category: String,
}

/// An attack of a registered unit; the damage type is kept as its display text.
pub struct UnitAttackInfo {
    pub name: String,
    pub damage: u32,
    pub range: i32,
    pub damage_type: String,
}

/// The evolution line of a registered unit, by unit type name.
pub struct UnitEvolutionInfo {
    pub previous_form: Option<String>,
    pub next_forms: Vec<String>,
}

/// A registered unit type; race and class are kept as their display text.
pub struct UnitEntry {
    pub name: String,
    pub race: String,
    pub class: String,
    pub description: String,
    pub stats: UnitStatsInfo,
    pub attacks: Vec<UnitAttackInfo>,
    pub evolution: UnitEvolutionInfo,
}

/// A registered terrain type.
pub struct TerrainEntry {
    pub name: String,
    pub movement_cost: i32,
    pub description: String,
}

/// An entry of the encyclopedia.
pub enum EncyclopediaEntry {
    Unit(UnitEntry),
    Terrain(TerrainEntry),
    Mechanic(MechanicEntry),
}

/// The registered units, terrains and mechanics.
pub struct Encyclopedia {
    pub units: Vec<UnitEntry>,
    pub terrains: Vec<TerrainEntry>,
    pub mechanics: Vec<MechanicEntry>,
}

impl Encyclopedia {
    /// All registered units, in registration order.
    pub fn all_units(&self) -> (u: &[UnitEntry])
        ensures
            u@ == self.units@,
    {
        self.units.as_slice()
    }

    /// All registered terrains, in registration order.
    pub fn all_terrain(&self) -> (t: &[TerrainEntry])
        ensures
            t@ == self.terrains@,
    {
        self.terrains.as_slice()
    }

    /// All registered mechanics, in registration order.
    pub fn all_mechanics(&self) -> (m: &[MechanicEntry])
        ensures
            m@ == self.mechanics@,
    {
        self.mechanics.as_slice()
    }
}

} // verus!
