//! Items that units can equip or use, and the bonuses they grant.
use vstd::prelude::*;
use uuid::Uuid;
use crate::ids::random_id;
use crate::item_properties::{ItemProperties, RangeType};

verus! {

/// Kind of an item.
#[derive(Clone, Copy, Debug, PartialEq, Eq, Structural)]
pub enum ItemType {
    Weapon,
    Armor,
    Accessory,
    Consumable,
}

/// An item that can be equipped or used by a unit.
#[derive(Clone, Debug, PartialEq)]
pub struct Item {
    pub id: Uuid,
    pub name: String,
    pub description: String,
    pub item_type: ItemType,
    pub properties: ItemProperties,
}

/// The kind of item that the given properties describe.
pub open spec fn item_type_of(p: ItemProperties) -> ItemType {
    match p {
        ItemProperties::Weapon { .. } => ItemType::Weapon,
        ItemProperties::Armor { .. } => ItemType::Armor,
        ItemProperties::Accessory { .. } => ItemType::Accessory,
        ItemProperties::Consumable { .. } => ItemType::Consumable,
    }
}

/// Attack bonus granted by items with these properties.
pub open spec fn attack_bonus_of(p: ItemProperties) -> int {
    match p {
        ItemProperties::Weapon { attack_bonus, .. } => attack_bonus as int,
        ItemProperties::Accessory { attack_bonus, .. } => attack_bonus as int,
        _ => 0,
    }
}

/// Defense bonus granted by items with these properties.
pub open spec fn defense_bonus_of(p: ItemProperties) -> int {
    match p {
        ItemProperties::Armor { defense_bonus, .. } => defense_bonus as int,
        ItemProperties::Accessory { defense_bonus, .. } => defense_bonus as int,
        _ => 0,
    }
}

/// Movement modifier (possibly negative) granted by items with these properties.
pub open spec fn movement_modifier_of(p: ItemProperties) -> int {
    match p {
        ItemProperties::Armor { movement_penalty, .. } => -(movement_penalty as int),
        ItemProperties::Accessory { movement_bonus, .. } => movement_bonus as int,
        _ => 0,
    }
}

/// Health bonus granted by items with these properties.
pub open spec fn health_bonus_of(p: ItemProperties) -> int {
    match p {
        ItemProperties::Accessory { health_bonus, .. } => health_bonus as int,
        _ => 0,
    }
}

/// Range category that items with these properties impose, if any.
pub open spec fn range_type_override_of(p: ItemProperties) -> Option<RangeType> {
    match p {
        ItemProperties::Weapon { range_type_override, .. } => range_type_override,
        _ => None,
    }
}

/// Range modifier granted by items with these properties.
pub open spec fn range_modifier_of(p: ItemProperties) -> int {
    match p {
        ItemProperties::Weapon { range_modifier, .. } => range_modifier as int,
        _ => 0,
    }
}

impl Item {
    /// Create a new item with a fresh random identifier; its kind follows
    /// from its properties.
    pub fn new(name: String, description: String, properties: ItemProperties) -> (it: Item)
        ensures
            it.name == name,
            it.description == description,
            it.item_type == item_type_of(properties),
            it.properties == properties,
    {
        Item::with_id(random_id(), name, description, properties)
    }

    /// Create an item with the identifier `id`; its kind follows from its
    /// properties.
    pub fn with_id(id: Uuid, name: String, description: String, properties: ItemProperties) -> (it: Item)
        ensures
            it.id == id,
            it.name == name,
            it.description == description,
            it.item_type == item_type_of(properties),
            it.properties == properties,
    {
        let item_type = match properties {
            ItemProperties::Weapon { .. } => ItemType::Weapon,
            ItemProperties::Armor { .. } => ItemType::Armor,
            ItemProperties::Accessory { .. } => ItemType::Accessory,
            ItemProperties::Consumable { .. } => ItemType::Consumable,
        };
        Item { id, name, description, item_type, properties }
    }

    /// The attack bonus this item provides.
    pub fn get_attack_bonus(&self) -> (b: i32)
        ensures
            b == attack_bonus_of(self.properties),
            self.properties is Armor || self.properties is Consumable ==> b == 0,
    {
        match &self.properties {
            ItemProperties::Weapon { attack_bonus, .. } => *attack_bonus,
            ItemProperties::Accessory { attack_bonus, .. } => *attack_bonus,
            _ => 0,
        }
    }

    /// The defense bonus this item provides.
    pub fn get_defense_bonus(&self) -> (b: i32)
        ensures
            b == defense_bonus_of(self.properties),
            self.properties is Weapon || self.properties is Consumable ==> b == 0,
    {
        match &self.properties {
            ItemProperties::Armor { defense_bonus, .. } => *defense_bonus,
            ItemProperties::Accessory { defense_bonus, .. } => *defense_bonus,
            _ => 0,
        }
    }

    /// The movement modifier this item provides (negative for armor).
    pub fn get_movement_modifier(&self) -> (m: i32)
        requires
            self.properties matches ItemProperties::Armor { movement_penalty, .. } ==> movement_penalty
                != i32::MIN,
        ensures
            m == movement_modifier_of(self.properties),
            self.properties is Weapon || self.properties is Consumable ==> m == 0,
    {
        match &self.properties {
            ItemProperties::Armor { movement_penalty, .. } => -*movement_penalty,
            ItemProperties::Accessory { movement_bonus, .. } => *movement_bonus,
            _ => 0,
        }
    }

    /// The health bonus this item provides.
    pub fn get_health_bonus(&self) -> (b: i32)
        ensures
            b == health_bonus_of(self.properties),
            !(self.properties is Accessory) ==> b == 0,
    {
        match &self.properties {
            ItemProperties::Accessory { health_bonus, .. } => *health_bonus,
            _ => 0,
        }
    }

    /// The range category this item imposes, if it provides one.
    pub fn get_range_type_override(&self) -> (r: Option<RangeType>)
        ensures
            r == range_type_override_of(self.properties),
            !(self.properties is Weapon) ==> r is None,
    {
        match &self.properties {
            ItemProperties::Weapon { range_type_override, .. } => *range_type_override,
            _ => None,
        }
    }

    /// The range modifier this item provides.
    pub fn get_range_modifier(&self) -> (m: i32)
        ensures
            m == range_modifier_of(self.properties),
            !(self.properties is Weapon) ==> m == 0,
    {
        match &self.properties {
            ItemProperties::Weapon { range_modifier, .. } => *range_modifier,
            _ => 0,
        }
    }
}

/// Law: each bonus comes only from the kinds of item that carry it, as the
/// value of that item's own field. A weapon grants its attack bonus, range
/// modifier and range override; armor its defense bonus and, as a negative
/// movement modifier, its movement penalty; an accessory its health, attack,
/// defense and movement bonuses. A consumable grants none of them: its effect
/// is applied when used, not while carried.
pub proof fn law_bonuses_come_from_their_kinds(p: ItemProperties)
    ensures
        p matches ItemProperties::Weapon { attack_bonus, range_modifier, range_type_override, .. }
            ==> {
            &&& attack_bonus_of(p) == attack_bonus
            &&& range_modifier_of(p) == range_modifier
            &&& range_type_override_of(p) == range_type_override
            &&& defense_bonus_of(p) == 0
            &&& movement_modifier_of(p) == 0
            &&& health_bonus_of(p) == 0
        },
        p matches ItemProperties::Armor { defense_bonus, movement_penalty } ==> {
            &&& defense_bonus_of(p) == defense_bonus
            &&& movement_modifier_of(p) == -movement_penalty
            &&& attack_bonus_of(p) == 0
            &&& health_bonus_of(p) == 0
            &&& range_modifier_of(p) == 0
            &&& range_type_override_of(p) is None
        },
        p matches ItemProperties::Accessory { health_bonus, attack_bonus, defense_bonus, movement_bonus }
            ==> {
            &&& health_bonus_of(p) == health_bonus
            &&& attack_bonus_of(p) == attack_bonus
            &&& defense_bonus_of(p) == defense_bonus
            &&& movement_modifier_of(p) == movement_bonus
            &&& range_modifier_of(p) == 0
            &&& range_type_override_of(p) is None
        },
        p is Consumable ==> {
            &&& attack_bonus_of(p) == 0
            &&& defense_bonus_of(p) == 0
            &&& movement_modifier_of(p) == 0
            &&& health_bonus_of(p) == 0
            &&& range_modifier_of(p) == 0
            &&& range_type_override_of(p) is None
        },
{
}

} // verus!
