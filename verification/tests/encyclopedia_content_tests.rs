use questquest::encyclopedia::{
    Encyclopedia, EncyclopediaEntry, MechanicEntry, TerrainEntry, UnitAttackInfo, UnitEntry,
    UnitEvolutionInfo, UnitStatsInfo,
};
use questquest::encyclopedia_builder::{
    format_entry, get_mechanics_content_comprehensive, get_terrain_content_comprehensive,
    get_units_content_comprehensive, EncyclopediaBuilder, EncyclopediaLibrary,
};

const BOTTOM: &str = "╚═══════════════════════════════════════════════════════════════════════╝";

fn strings(v: &[&str]) -> Vec<String> {
    v.iter().map(|s| s.to_string()).collect()
}

#[test]
fn test_build_and_format_entry() {
    let e = EncyclopediaBuilder::new("T")
        .description("a")
        .description("b")
        .stat("k", "v")
        .tip("t")
        .build();
    match &e {
        EncyclopediaEntry::Mechanic(m) => {
            assert_eq!(m.title, "T");
            assert_eq!(m.category, "Guide");
            assert_eq!(m.description, "a\nb");
            assert_eq!(m.details, strings(&["Stats:", "  • k: v", "Tips:", "  • t"]));
            assert!(m.examples.is_empty());
        }
        _ => panic!("a built entry is a mechanic entry"),
    }
    let lines = format_entry(&e);
    assert_eq!(
        lines,
        strings(&[
            "╔════════ T ════════╗",
            "",
            "a",
            "b",
            "",
            "Stats:",
            "  • k: v",
            "Tips:",
            "  • t",
            "",
            BOTTOM,
            "",
        ])
    );
}

#[test]
fn test_format_entry_without_details() {
    let e = EncyclopediaBuilder::new("Bare").build();
    assert_eq!(format_entry(&e), strings(&["╔════════ Bare ════════╗", "", "", "", BOTTOM, ""]));
}

#[test]
fn test_format_non_guide_entry() {
    let e = EncyclopediaEntry::Terrain(TerrainEntry {
        name: "Hills".to_string(),
        movement_cost: 2,
        description: "High".to_string(),
    });
    assert_eq!(format_entry(&e), strings(&["[Non-guide entry formatting not implemented]"]));
}

#[test]
fn test_unknown_class_entry_formatting() {
    let e = EncyclopediaLibrary::unit_class_entry("nobody");
    let lines = format_entry(&e);
    assert_eq!(lines[0], "╔════════ Unknown Class ════════╗");
    assert_eq!(lines[2], "No information available for this class.");
}

fn sample_encyclopedia() -> Encyclopedia {
    Encyclopedia {
        units: vec![UnitEntry {
            name: "Footman".to_string(),
            race: "Human".to_string(),
            class: "Warrior".to_string(),
            description: "Sturdy".to_string(),
            stats: UnitStatsInfo {
                health: 30,
                max_health: 40,
                attack_strength: 7,
                defense: 5,
                movement_speed: 4,
                range_category: "Melee".to_string(),
            },
            attacks: vec![UnitAttackInfo {
                name: "Sword".to_string(),
                damage: 8,
                range: 1,
                damage_type: "Slash".to_string(),
            }],
            evolution: UnitEvolutionInfo {
                previous_form: Some("Recruit".to_string()),
                next_forms: vec!["Knight".to_string()],
            },
        }],
        terrains: vec![TerrainEntry {
            name: "Swamp".to_string(),
            movement_cost: -3,
            description: "Wet".to_string(),
        }],
        mechanics: vec![MechanicEntry {
            title: "Flanking".to_string(),
            category: "Combat".to_string(),
            description: "Attack from behind".to_string(),
            details: vec!["Bonus".to_string()],
            examples: vec![],
        }],
    }
}

#[test]
fn test_units_content_lists_registered_units() {
    let lines = get_units_content_comprehensive(&sample_encyclopedia());
    assert_eq!(lines[0], "╔═══════════════════════════════════════════════════════════════════════╗");
    assert_eq!(lines[3], "");
    let n = lines.len();
    assert_eq!(
        lines[n - 10..].to_vec(),
        strings(&[
            "ALL REGISTERED UNITS:",
            "• Footman [Human - Warrior]",
            "  Sturdy",
            "  Stats: HP 30/40 | ATK 7 | DEF 5 | MOV 4 | Range Melee",
            "  Attacks:",
            "    - Sword (8 dmg, 1 range, Slash)",
            "  Evolution:",
            "    ← Previous: Recruit",
            "    → Next: Knight",
            "",
        ])
    );
}

#[test]
fn test_terrain_content_lists_registered_terrains() {
    let lines = get_terrain_content_comprehensive(&sample_encyclopedia());
    let n = lines.len();
    assert_eq!(
        lines[n - 4..].to_vec(),
        strings(&["ALL REGISTERED TERRAINS:", "• Swamp (Cost: -3)", "  Wet", ""])
    );
}

#[test]
fn test_mechanics_content_lists_registered_mechanics() {
    let lines = get_mechanics_content_comprehensive(&sample_encyclopedia());
    let n = lines.len();
    assert_eq!(
        lines[n - 6..].to_vec(),
        strings(&[
            "ALL REGISTERED MECHANICS:",
            "• Flanking [Combat]",
            "  Attack from behind",
            "  Details:",
            "    - Bonus",
            "",
        ])
    );
    let empty = Encyclopedia { units: vec![], terrains: vec![], mechanics: vec![] };
    let lines = get_mechanics_content_comprehensive(&empty);
    assert_eq!(lines[lines.len() - 1], "ALL REGISTERED MECHANICS:");
}

#[test]
fn mechanics_page_length_follows_its_blocks() {
    let guide_len = 4
        + format_entry(&EncyclopediaLibrary::combat_system()).len()
        + format_entry(&EncyclopediaLibrary::movement_system()).len()
        + format_entry(&EncyclopediaLibrary::equipment_system()).len()
        + 2;
    let mech = |title: &str, details: usize, examples: usize| MechanicEntry {
        title: title.to_string(),
        category: "Rules".to_string(),
        description: "About it".to_string(),
        details: (0..details).map(|i| format!("d{}", i)).collect(),
        examples: (0..examples).map(|i| format!("e{}", i)).collect(),
    };
    let enc = Encyclopedia {
        units: vec![],
        terrains: vec![],
        mechanics: vec![mech("A", 0, 0), mech("B", 2, 0), mech("C", 1, 3)],
    };
    let lines = get_mechanics_content_comprehensive(&enc);
    assert_eq!(lines.len(), guide_len + 3 + (3 + 3) + (3 + 2 + 4));
    assert_eq!(lines[guide_len], "• A [Rules]");
    assert_eq!(lines[guide_len + 3], "• B [Rules]");
    assert_eq!(lines[guide_len + 3 + 6], "• C [Rules]");
}
