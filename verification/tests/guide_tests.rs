use questquest::guide::{EncyclopediaBuilder, EncyclopediaLibrary};

#[test]
fn test_builder_collects_in_order() {
    let e = EncyclopediaBuilder::new("Title")
        .description("first")
        .description("second")
        .stat("Key", "Value")
        .tip("Tip one")
        .tip("Tip two")
        .build();
    assert_eq!(e.title, "Title");
    assert_eq!(e.description, vec!["first".to_string(), "second".to_string()]);
    assert_eq!(e.stats, vec![("Key".to_string(), "Value".to_string())]);
    assert_eq!(e.tips, vec!["Tip one".to_string(), "Tip two".to_string()]);
}

#[test]
fn test_combat_system_entry() {
    let e = EncyclopediaLibrary::combat_system();
    assert_eq!(e.title, "Combat System");
    assert_eq!(e.description.len(), 10);
    assert_eq!(e.description[0], "QuestQuest uses a tactical turn-based combat system.");
    assert_eq!(e.description[2], "");
    assert_eq!(e.description[9], "• Dark - Shadow and curse magic");
    assert_eq!(e.stats[0], ("Hit Chance".to_string(), "Base + Terrain Bonus - Enemy Evasion".to_string()));
    assert_eq!(e.stats[1], ("Damage".to_string(), "Attack - (Defense * Resistance)".to_string()));
    assert_eq!(e.tips.len(), 3);
    assert_eq!(e.tips[2], "Equipment can modify your attack range and damage type");
}

#[test]
fn test_other_library_entries() {
    assert_eq!(EncyclopediaLibrary::movement_system().title, "Movement System");
    assert_eq!(EncyclopediaLibrary::terrain_types().stats[0], ("Total Terrain Types".to_string(), "7".to_string()));
    assert!(!EncyclopediaLibrary::character_classes().description.is_empty());
    assert!(!EncyclopediaLibrary::character_races().description.is_empty());
    assert!(!EncyclopediaLibrary::equipment_system().tips.is_empty());
}

#[test]
fn test_unit_class_entry_ignores_case() {
    let upper = EncyclopediaLibrary::unit_class_entry("WARRIOR");
    let mixed = EncyclopediaLibrary::unit_class_entry("WaRrIoR");
    let lower = EncyclopediaLibrary::unit_class_entry("warrior");
    assert_eq!(upper.title, "Warrior");
    assert_eq!(mixed.title, "Warrior");
    assert_eq!(lower.title, "Warrior");
    assert_eq!(upper.stats[2], ("Range".to_string(), "Melee (1 hex)".to_string()));
    assert_eq!(EncyclopediaLibrary::unit_class_entry("Archer").title, "Archer");
    assert_eq!(EncyclopediaLibrary::unit_class_entry("MAGE").title, "Mage");
    assert_eq!(EncyclopediaLibrary::unit_class_entry("paladin").tips[0], "Paladins can heal allies");
}

#[test]
fn test_unit_class_entry_unknown() {
    let e = EncyclopediaLibrary::unit_class_entry("Necromancer");
    assert_eq!(e.title, "Unknown Class");
    assert_eq!(e.description, vec!["No information available for this class.".to_string()]);
    assert!(e.stats.is_empty());
    assert!(e.tips.is_empty());
}
