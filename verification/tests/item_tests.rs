use questquest::item::{Item, ItemType};
use questquest::item_definitions::create_iron_sword;
use questquest::item_properties::{ConsumableEffect, DamageType, ItemAttack, ItemProperties, RangeType};

#[test]
fn test_iron_sword() {
    let sword = create_iron_sword();
    assert_eq!(sword.name, "Iron Sword");
    assert_eq!(sword.description, "A sturdy iron sword with a sharp blade.");
    assert_eq!(sword.item_type, ItemType::Weapon);
    assert_eq!(sword.get_attack_bonus(), 1);
    assert_eq!(sword.get_defense_bonus(), 0);
    assert_eq!(sword.get_range_modifier(), 0);
    assert_eq!(sword.get_range_type_override(), None);
    match &sword.properties {
        ItemProperties::Weapon { attacks, .. } => {
            assert_eq!(attacks.len(), 1);
            assert_eq!(attacks[0].name, "Slash");
            assert_eq!(attacks[0].damage, 8);
            assert_eq!(attacks[0].attack_times, 2);
            assert_eq!(attacks[0].damage_type, DamageType::Slash);
        }
        _ => panic!("the iron sword is a weapon"),
    }
}

#[test]
fn test_item_ids_differ() {
    let a = create_iron_sword();
    let b = create_iron_sword();
    assert_ne!(a.id, b.id);
}

#[test]
fn test_item_attack_hits_at_least_once() {
    let a = ItemAttack::new("Stab", 5, 0, DamageType::Pierce);
    assert_eq!(a.attack_times, 1);
    assert_eq!(a.damage, 5);
    let b = ItemAttack::new("Flurry", 2, 4, DamageType::Slash);
    assert_eq!(b.attack_times, 4);
}

#[test]
fn test_range_types() {
    assert_eq!(RangeType::Melee.base_range(), 1);
    assert_eq!(RangeType::Ranged.base_range(), 3);
    assert_eq!(RangeType::Siege.base_range(), 6);
    assert_eq!(RangeType::Melee.name(), "Melee");
    assert_eq!(RangeType::Ranged.name(), "Ranged");
    assert_eq!(RangeType::Siege.name(), "Siege");
}

#[test]
fn test_item_bonuses_by_kind() {
    let armor = Item::new(
        "Plate".to_string(),
        "Heavy".to_string(),
        ItemProperties::Armor { defense_bonus: 4, movement_penalty: 2 },
    );
    assert_eq!(armor.item_type, ItemType::Armor);
    assert_eq!(armor.get_defense_bonus(), 4);
    assert_eq!(armor.get_movement_modifier(), -2);
    assert_eq!(armor.get_attack_bonus(), 0);
    let ring = Item::new(
        "Ring".to_string(),
        "Shiny".to_string(),
        ItemProperties::Accessory { health_bonus: 5, attack_bonus: 1, defense_bonus: 2, movement_bonus: 1 },
    );
    assert_eq!(ring.item_type, ItemType::Accessory);
    assert_eq!(ring.get_health_bonus(), 5);
    assert_eq!(ring.get_attack_bonus(), 1);
    assert_eq!(ring.get_defense_bonus(), 2);
    assert_eq!(ring.get_movement_modifier(), 1);
    let bow = Item::new(
        "Bow".to_string(),
        "Long".to_string(),
        ItemProperties::Weapon {
            attack_bonus: 2,
            range_modifier: 1,
            range_type_override: Some(RangeType::Ranged),
            attacks: vec![],
        },
    );
    assert_eq!(bow.get_range_type_override(), Some(RangeType::Ranged));
    assert_eq!(bow.get_range_modifier(), 1);
    let potion = Item::new(
        "Potion".to_string(),
        "Red".to_string(),
        ItemProperties::Consumable { uses: 1, effect: ConsumableEffect::Heal { amount: 10 } },
    );
    assert_eq!(potion.item_type, ItemType::Consumable);
    assert_eq!(potion.get_health_bonus(), 0);
    assert_eq!(potion.get_movement_modifier(), 0);
}

#[test]
fn test_item_with_id() {
    let id = uuid::Uuid::nil();
    let gem = Item::with_id(
        id,
        "Gem".to_string(),
        "Bright".to_string(),
        ItemProperties::Accessory { health_bonus: 0, attack_bonus: 0, defense_bonus: 0, movement_bonus: 2 },
    );
    assert_eq!(gem.id, id);
    assert_eq!(gem.item_type, ItemType::Accessory);
    assert_eq!(gem.get_movement_modifier(), 2);
}
