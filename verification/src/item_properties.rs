//! Damage types, weapon attacks, attack ranges and the properties of items.
use vstd::prelude::*;

verus! {

/// Type of damage dealt by an attack.
#[derive(Clone, Copy, Debug, PartialEq, Eq, Structural)]
pub enum DamageType {
    Slash,
    Pierce,
    Blunt,
    Fire,
    Ice,
    Lightning,
    Poison,
    Holy,
    Dark,
}

/// A specific attack that an item provides.
#[derive(Clone, Debug, PartialEq)]
pub struct ItemAttack {
    /// Name of the attack (e.g. "Slash", "Stab").
    pub name: String,
    /// Damage this attack deals.
    pub damage: u32,
    /// Type of damage dealt.
    pub damage_type: DamageType,
    /// Number of times this attack hits per round.
    pub attack_times: u32,
}

impl ItemAttack {
    /// Create a new item attack; an attack hits at least once per round.
    pub fn new(name: &str, damage: u32, attack_times: u32, damage_type: DamageType) -> (a: ItemAttack)
        ensures
            a.name@ == name@,
            a.damage == damage,
            a.damage_type == damage_type,
            a.attack_times == (if attack_times < 1 { 1 } else { attack_times }),
    {
        ItemAttack {
            name: name.to_string(),
            damage,
            damage_type,
            attack_times: if attack_times < 1 { 1 } else { attack_times },
        }
    }
}

/// Range category of attacks.
#[derive(Clone, Copy, Debug, PartialEq, Eq, Structural)]
pub enum RangeType {
    Melee,
    Ranged,
    Siege,
}

/// Base attack range of a range category, in hexes.
pub open spec fn base_range_of(r: RangeType) -> int {
    match r {
        RangeType::Melee => 1,
        RangeType::Ranged => 3,
        RangeType::Siege => 6,
    }
}

/// Name of a range category.
pub open spec fn range_name_of(r: RangeType) -> Seq<char> {
    match r {
        RangeType::Melee => "Melee"@,
        RangeType::Ranged => "Ranged"@,
        RangeType::Siege => "Siege"@,
    }
}

impl RangeType {
    /// Base attack range of this range category, in hexes.
    pub fn base_range(&self) -> (n: i32)
        ensures
            n == base_range_of(*self),
    {
        match self {
            RangeType::Melee => 1,
            RangeType::Ranged => 3,
            RangeType::Siege => 6,
        }
    }

    /// Name of this range category.
    pub fn name(&self) -> (s: &'static str)
        ensures
            s@ == range_name_of(*self),
    {
        match self {
            RangeType::Melee => "Melee",
            RangeType::Ranged => "Ranged",
            RangeType::Siege => "Siege",
        }
    }
}

/// Properties that an item can have.
#[derive(Clone, Debug, PartialEq)]
pub enum ItemProperties {
    /// Weapon with combat-related properties.
    Weapon {
        attack_bonus: i32,
        range_modifier: i32,
        range_type_override: Option<RangeType>,
        attacks: Vec<ItemAttack>,
    },
    /// Armor providing defense and possibly a movement penalty.
    Armor { defense_bonus: i32, movement_penalty: i32 },
    /// Accessories providing small bonuses.
    Accessory { health_bonus: i32, attack_bonus: i32, defense_bonus: i32, movement_bonus: i32 },
    /// Consumable items with limited uses and an effect.
    Consumable { uses: i32, effect: ConsumableEffect },
}

/// Effects that consumable items can have.
#[derive(Clone, Debug, PartialEq, Eq, Structural)]
pub enum ConsumableEffect {
    Heal { amount: i32 },
    Buff { attack_bonus: i32, defense_bonus: i32, duration: i32 },
    Restore { health: i32 },
}

} // verus!
