//! Predefined items.
use vstd::prelude::*;
use crate::item::{Item, ItemType};
use crate::item_properties::{DamageType, ItemAttack, ItemProperties};

verus! {

/// The Iron Sword: a weapon with attack bonus 1, no range change, and one
/// "Slash" attack of 8 slash damage hitting twice per round.
pub fn create_iron_sword() -> (it: Item)
    ensures
        it.name@ == "Iron Sword"@,
        it.description@ == "A sturdy iron sword with a sharp blade."@,
        it.item_type == ItemType::Weapon,
        it.properties matches ItemProperties::Weapon {
            attack_bonus,
            range_modifier,
            range_type_override,
            attacks,
        } && attack_bonus == 1 && range_modifier == 0 && range_type_override is None
            && attacks@.len() == 1 && attacks@[0].name@ == "Slash"@ && attacks@[0].damage == 8
            && attacks@[0].attack_times == 2 && attacks@[0].damage_type == DamageType::Slash,
{
    let mut attacks: Vec<ItemAttack> = Vec::new();
    attacks.push(ItemAttack::new("Slash", 8, 2, DamageType::Slash));
    Item::new(
        "Iron Sword".to_string(),
        "A sturdy iron sword with a sharp blade.".to_string(),
        ItemProperties::Weapon {
            attack_bonus: 1,
            range_modifier: 0,
            range_type_override: None,
            attacks,
        },
    )
}

} // verus!
