//! Encyclopedia entries (title, description lines, key/value stats and
//! tips), a builder for them, and the built-in entries of the game guide.
use vstd::prelude::*;

verus! {

/// Text of an encyclopedia entry.
#[verifier::ext_equal]
pub struct GuideText {
    pub title: Seq<char>,
    pub description: Seq<Seq<char>>,
    pub stats: Seq<(Seq<char>, Seq<char>)>,
    pub tips: Seq<Seq<char>>,
}

/// Text of each string of a sequence.
pub open spec fn texts(v: Seq<String>) -> Seq<Seq<char>> {
    v.map_values(|s: String| s@)
}

/// Text of each key/value pair of a sequence.
pub open spec fn pair_texts(v: Seq<(String, String)>) -> Seq<(Seq<char>, Seq<char>)> {
    v.map_values(|p: (String, String)| (p.0@, p.1@))
}

/// An encyclopedia / guide entry.
pub struct EncyclopediaEntry {
    pub title: String,
    pub description: Vec<String>,
    pub stats: Vec<(String, String)>,
    pub tips: Vec<String>,
}

impl View for EncyclopediaEntry {
    type V = GuideText;

    open spec fn view(&self) -> GuideText {
        GuideText {
            title: self.title@,
            description: texts(self.description@),
            stats: pair_texts(self.stats@),
            tips: texts(self.tips@),
        }
    }
}

/// Builder for encyclopedia entries.
pub struct EncyclopediaBuilder {
    title: String,
    description: Vec<String>,
    stats: Vec<(String, String)>,
    tips: Vec<String>,
}

impl View for EncyclopediaBuilder {
    type V = GuideText;

    closed spec fn view(&self) -> GuideText {
        GuideText {
            title: self.title@,
            description: texts(self.description@),
            stats: pair_texts(self.stats@),
            tips: texts(self.tips@),
        }
    }
}

impl EncyclopediaBuilder {
    /// Start an entry with the given title and no lines, stats or tips.
    pub fn new(title: &str) -> (b: EncyclopediaBuilder)
        ensures
            b@ == (GuideText {
                title: title@,
                description: Seq::empty(),
                stats: Seq::empty(),
                tips: Seq::empty(),
            }),
    {
        let b = EncyclopediaBuilder {
            title: title.to_string(),
            description: Vec::new(),
            stats: Vec::new(),
            tips: Vec::new(),
        };
        assert(b@.description =~= Seq::empty());
        assert(b@.stats =~= Seq::empty());
        assert(b@.tips =~= Seq::empty());
        b
    }

    /// Append a description line.
    pub fn description(self, line: &str) -> (b: EncyclopediaBuilder)
        ensures
            b@ == (GuideText { description: self@.description.push(line@), ..self@ }),
    {
        let mut b = self;
        let ghost old_d = b.description@;
        b.description.push(line.to_string());
        assert(texts(b.description@) =~= texts(old_d).push(line@));
        b
    }

    /// Append a key/value stat.
    pub fn stat(self, key: &str, value: &str) -> (b: EncyclopediaBuilder)
        ensures
            b@ == (GuideText { stats: self@.stats.push((key@, value@)), ..self@ }),
    {
        let mut b = self;
        let ghost old_s = b.stats@;
        b.stats.push((key.to_string(), value.to_string()));
        assert(pair_texts(b.stats@) =~= pair_texts(old_s).push((key@, value@)));
        b
    }

    /// Append a tip.
    pub fn tip(self, tip: &str) -> (b: EncyclopediaBuilder)
        ensures
            b@ == (GuideText { tips: self@.tips.push(tip@), ..self@ }),
    {
        let mut b = self;
        let ghost old_t = b.tips@;
        b.tips.push(tip.to_string());
        assert(texts(b.tips@) =~= texts(old_t).push(tip@));
        b
    }

    /// The finished entry.
    pub fn build(self) -> (e: EncyclopediaEntry)
        ensures
            e@ == self@,
    {
        EncyclopediaEntry {
            title: self.title,
            description: self.description,
            stats: self.stats,
            tips: self.tips,
        }
    }
}

/// `str::to_lowercase` of std: the Unicode lowercase mapping of a string.
pub uninterp spec fn lowercase(s: Seq<char>) -> Seq<char>;

/// Lowercase a string with `str::to_lowercase`: the result is the Unicode
/// lowercase mapping of the input, a function of the input alone.
#[verifier::external_body]
pub(crate) fn to_lowercase(s: &str) -> (r: String)
    ensures
        r@ == lowercase(s@),
{
    s.to_lowercase()
}

/// Text of the encyclopedia entry for the combat system.
pub open spec fn combat_system_text() -> GuideText {
    GuideText {
        title: "Combat System"@,
        description: seq![
            "QuestQuest uses a tactical turn-based combat system."@,
            "Combat is resolved using attack, defense, and damage types."@,
            ""@,
            "Damage Types:"@,
            "• Slash - Swords and bladed weapons"@,
            "• Pierce - Arrows, spears, daggers"@,
            "• Blunt - Hammers and clubs"@,
            "• Crush - Heavy weapons and siege"@,
            "• Fire - Magical fire damage"@,
            "• Dark - Shadow and curse magic"@,
        ],
        stats: seq![
            ("Hit Chance"@, "Base + Terrain Bonus - Enemy Evasion"@),
            ("Damage"@, "Attack - (Defense * Resistance)"@),
        ],
        tips: seq![
            "Different units have different resistances to damage types"@,
            "Terrain provides bonuses to hit chance for certain races"@,
            "Equipment can modify your attack range and damage type"@,
        ],
    }
}

/// Text of the encyclopedia entry for movement mechanics.
pub open spec fn movement_system_text() -> GuideText {
    GuideText {
        title: "Movement System"@,
        description: seq![
            "Units move across a hexagonal grid."@,
            "Each unit has a movement range based on their class."@,
            ""@,
            "Movement Categories:"@,
            "• Infantry: 2-3 hexes per turn"@,
            "• Cavalry: 4-5 hexes per turn"@,
            "• Scouts: 5-6 hexes per turn"@,
        ],
        stats: seq![
            ("Movement Cost"@, "1 hex = 1 movement point"@),
            ("Terrain Effects"@, "Some terrain may cost extra"@),
        ],
        tips: seq![
            "Plan your movement to stay within attack range"@,
            "Use scouts for reconnaissance"@,
            "Positioning is key in tactical combat"@,
        ],
    }
}

/// Text of the encyclopedia entry for character classes.
pub open spec fn character_classes_text() -> GuideText {
    GuideText {
        title: "Character Classes"@,
        description: seq![
            "Each unit belongs to one of four main classes:"@,
            ""@,
            "Warrior - Melee combat specialist"@,
            "• High health and defense"@,
            "• Deals Slash or Blunt damage"@,
            "• Melee range only"@,
            ""@,
            "Archer - Ranged attacker"@,
            "• Medium health, low defense"@,
            "• Deals Pierce damage"@,
            "• Long attack range"@,
            ""@,
            "Mage - Magic user"@,
            "• Low health and defense"@,
            "• Deals Fire or Dark damage"@,
            "• Medium range, high damage"@,
            ""@,
            "Paladin - Holy knight"@,
            "• High health and defense"@,
            "• Deals Fire damage"@,
            "• Can heal allies"@,
        ],
        stats: seq![
            ("Total Classes"@, "4 per race"@),
        ],
        tips: seq![
            "Each race has unique bonuses for each class"@,
            "Mix different classes for tactical advantage"@,
        ],
    }
}

/// Text of the encyclopedia entry for character races.
pub open spec fn character_races_text() -> GuideText {
    GuideText {
        title: "Character Races"@,
        description: seq![
            "Four playable races, each with unique traits:"@,
            ""@,
            "Human - Balanced and versatile"@,
            "• No terrain penalties"@,
            "• Bonus to all stats"@,
            ""@,
            "Elf - Swift and precise"@,
            "• Bonus in forests"@,
            "• Extra movement and accuracy"@,
            ""@,
            "Dwarf - Sturdy and resilient"@,
            "• Bonus in mountains"@,
            "• Extra health and defense"@,
            ""@,
            "Orc - Strong and aggressive"@,
            "• Bonus in all terrains"@,
            "• Extra attack power"@,
        ],
        stats: seq![
            ("Playable Races"@, "4"@),
        ],
        tips: seq![
            "Choose race based on your playstyle"@,
            "Terrain bonuses are significant"@,
        ],
    }
}

/// Text of the encyclopedia entry for the equipment system.
pub open spec fn equipment_system_text() -> GuideText {
    GuideText {
        title: "Equipment System"@,
        description: seq![
            "Units can equip weapons, armor, and accessories."@,
            "Equipment provides stat bonuses and special effects."@,
            ""@,
            "Equipment Slots:"@,
            "• Weapon - Increases attack and may extend range"@,
            "• Armor - Increases defense and resistances"@,
            "• Accessory - Various special effects"@,
        ],
        stats: seq![
            ("Max Items"@, "3 equipped + inventory"@),
            ("Weight Limit"@, "Based on strength stat"@),
        ],
        tips: seq![
            "Better equipment = stronger units"@,
            "Some items are class-specific"@,
            "Legendary items provide unique abilities"@,
        ],
    }
}

/// Text of the encyclopedia entry for terrain types.
pub open spec fn terrain_types_text() -> GuideText {
    GuideText {
        title: "Terrain Types"@,
        description: seq![
            "Different terrains affect combat and movement:"@,
            ""@,
            "• Grasslands - Open, no bonuses"@,
            "• Forest - Cover, bonus for Elves"@,
            "• Mountain - High ground, bonus for Dwarves"@,
            "• Hills - Elevated, minor defense bonus"@,
            "• Swamp - Difficult, movement penalty"@,
            "• Haunted Woods - Cursed, magical effects"@,
        ],
        stats: seq![
            ("Total Terrain Types"@, "7"@),
        ],
        tips: seq![
            "Use terrain to your advantage"@,
            "High ground provides defensive bonuses"@,
            "Some races excel in specific terrains"@,
        ],
    }
}

/// Text of the encyclopedia entry for the warrior class.
pub open spec fn warrior_class_text() -> GuideText {
    GuideText {
        title: "Warrior"@,
        description: seq![
            "Frontline melee combat specialist"@,
            "Warriors excel at close-quarters combat."@,
        ],
        stats: seq![
            ("Primary Role"@, "Tank / Melee DPS"@),
            ("Attack Type"@, "Slash / Blunt"@),
            ("Range"@, "Melee (1 hex)"@),
            ("Health"@, "High"@),
            ("Defense"@, "High"@),
        ],
        tips: seq![
            "Position warriors at the front"@,
            "Use terrain for defensive bonuses"@,
            "Equip heavy armor for survivability"@,
        ],
    }
}

/// Text of the encyclopedia entry for the archer class.
pub open spec fn archer_class_text() -> GuideText {
    GuideText {
        title: "Archer"@,
        description: seq![
            "Long-range precision attacker"@,
            "Archers strike from a distance with deadly accuracy."@,
        ],
        stats: seq![
            ("Primary Role"@, "Ranged DPS"@),
            ("Attack Type"@, "Pierce"@),
            ("Range"@, "Ranged (3-5 hexes)"@),
            ("Health"@, "Medium"@),
            ("Defense"@, "Low"@),
        ],
        tips: seq![
            "Keep archers behind your frontline"@,
            "Use high ground for range bonuses"@,
            "Focus on eliminating enemy mages first"@,
        ],
    }
}

/// Text of the encyclopedia entry for the mage class.
pub open spec fn mage_class_text() -> GuideText {
    GuideText {
        title: "Mage"@,
        description: seq![
            "Powerful magic user with area effects"@,
            "Mages deal devastating magical damage."@,
        ],
        stats: seq![
            ("Primary Role"@, "Magic DPS"@),
            ("Attack Type"@, "Fire / Dark"@),
            ("Range"@, "Medium (2-4 hexes)"@),
            ("Health"@, "Low"@),
            ("Defense"@, "Very Low"@),
        ],
        tips: seq![
            "Protect mages from melee attackers"@,
            "Mages ignore armor with magic damage"@,
            "Save mana for critical moments"@,
        ],
    }
}

/// Text of the encyclopedia entry for the paladin class.
pub open spec fn paladin_class_text() -> GuideText {
    GuideText {
        title: "Paladin"@,
        description: seq![
            "Holy warrior with healing abilities"@,
            "Paladins combine combat prowess with divine magic."@,
        ],
        stats: seq![
            ("Primary Role"@, "Tank / Support"@),
            ("Attack Type"@, "Fire (Holy)"@),
            ("Range"@, "Melee to Short"@),
            ("Health"@, "Very High"@),
            ("Defense"@, "High"@),
        ],
        tips: seq![
            "Paladins can heal allies"@,
            "Use holy damage against dark enemies"@,
            "Position near allies to provide support"@,
        ],
    }
}

/// Text of the encyclopedia entry for an unknown class.
pub open spec fn unknown_class_text() -> GuideText {
    GuideText {
        title: "Unknown Class"@,
        description: seq![
            "No information available for this class."@,
        ],
        stats: Seq::empty(),
        tips: Seq::empty(),
    }
}

/// Text of the entry for a unit class, chosen by its lowercase name.
pub open spec fn class_text_for(lower: Seq<char>) -> GuideText {
    if lower == "warrior"@ {
        warrior_class_text()
    } else if lower == "archer"@ {
        archer_class_text()
    } else if lower == "mage"@ {
        mage_class_text()
    } else if lower == "paladin"@ {
        paladin_class_text()
    } else {
        unknown_class_text()
    }
}

/// Built-in encyclopedia entries for common game elements.
pub struct EncyclopediaLibrary;

impl EncyclopediaLibrary {
    /// Encyclopedia entry for the combat system.
    pub fn combat_system() -> (e: EncyclopediaEntry)
        ensures
            e@ == combat_system_text(),
    {
        let e = EncyclopediaBuilder::new("Combat System")
            .description("QuestQuest uses a tactical turn-based combat system.")
            .description("Combat is resolved using attack, defense, and damage types.")
            .description("")
            .description("Damage Types:")
            .description("• Slash - Swords and bladed weapons")
            .description("• Pierce - Arrows, spears, daggers")
            .description("• Blunt - Hammers and clubs")
            .description("• Crush - Heavy weapons and siege")
            .description("• Fire - Magical fire damage")
            .description("• Dark - Shadow and curse magic")
            .stat("Hit Chance", "Base + Terrain Bonus - Enemy Evasion")
            .stat("Damage", "Attack - (Defense * Resistance)")
            .tip("Different units have different resistances to damage types")
            .tip("Terrain provides bonuses to hit chance for certain races")
            .tip("Equipment can modify your attack range and damage type")
            .build();
        assert(e@ =~= combat_system_text());
        e
    }

    /// Encyclopedia entry for movement mechanics.
    pub fn movement_system() -> (e: EncyclopediaEntry)
        ensures
            e@ == movement_system_text(),
    {
        let e = EncyclopediaBuilder::new("Movement System")
            .description("Units move across a hexagonal grid.")
            .description("Each unit has a movement range based on their class.")
            .description("")
            .description("Movement Categories:")
            .description("• Infantry: 2-3 hexes per turn")
            .description("• Cavalry: 4-5 hexes per turn")
            .description("• Scouts: 5-6 hexes per turn")
            .stat("Movement Cost", "1 hex = 1 movement point")
            .stat("Terrain Effects", "Some terrain may cost extra")
            .tip("Plan your movement to stay within attack range")
            .tip("Use scouts for reconnaissance")
            .tip("Positioning is key in tactical combat")
            .build();
        assert(e@ =~= movement_system_text());
        e
    }

    /// Encyclopedia entry for character classes.
    pub fn character_classes() -> (e: EncyclopediaEntry)
        ensures
            e@ == character_classes_text(),
    {
        let e = EncyclopediaBuilder::new("Character Classes")
            .description("Each unit belongs to one of four main classes:")
            .description("")
            .description("Warrior - Melee combat specialist")
            .description("• High health and defense")
            .description("• Deals Slash or Blunt damage")
            .description("• Melee range only")
            .description("")
            .description("Archer - Ranged attacker")
            .description("• Medium health, low defense")
            .description("• Deals Pierce damage")
            .description("• Long attack range")
            .description("")
            .description("Mage - Magic user")
            .description("• Low health and defense")
            .description("• Deals Fire or Dark damage")
            .description("• Medium range, high damage")
            .description("")
            .description("Paladin - Holy knight")
            .description("• High health and defense")
            .description("• Deals Fire damage")
            .description("• Can heal allies")
            .stat("Total Classes", "4 per race")
            .tip("Each race has unique bonuses for each class")
            .tip("Mix different classes for tactical advantage")
            .build();
        assert(e@ =~= character_classes_text());
        e
    }

    /// Encyclopedia entry for character races.
    pub fn character_races() -> (e: EncyclopediaEntry)
        ensures
            e@ == character_races_text(),
    {
        let e = EncyclopediaBuilder::new("Character Races")
            .description("Four playable races, each with unique traits:")
            .description("")
            .description("Human - Balanced and versatile")
            .description("• No terrain penalties")
            .description("• Bonus to all stats")
            .description("")
            .description("Elf - Swift and precise")
            .description("• Bonus in forests")
            .description("• Extra movement and accuracy")
            .description("")
            .description("Dwarf - Sturdy and resilient")
            .description("• Bonus in mountains")
            .description("• Extra health and defense")
            .description("")
            .description("Orc - Strong and aggressive")
            .description("• Bonus in all terrains")
            .description("• Extra attack power")
            .stat("Playable Races", "4")
            .tip("Choose race based on your playstyle")
            .tip("Terrain bonuses are significant")
            .build();
        assert(e@ =~= character_races_text());
        e
    }

    /// Encyclopedia entry for the equipment system.
    pub fn equipment_system() -> (e: EncyclopediaEntry)
        ensures
            e@ == equipment_system_text(),
    {
        let e = EncyclopediaBuilder::new("Equipment System")
            .description("Units can equip weapons, armor, and accessories.")
            .description("Equipment provides stat bonuses and special effects.")
            .description("")
            .description("Equipment Slots:")
            .description("• Weapon - Increases attack and may extend range")
            .description("• Armor - Increases defense and resistances")
            .description("• Accessory - Various special effects")
            .stat("Max Items", "3 equipped + inventory")
            .stat("Weight Limit", "Based on strength stat")
            .tip("Better equipment = stronger units")
            .tip("Some items are class-specific")
            .tip("Legendary items provide unique abilities")
            .build();
        assert(e@ =~= equipment_system_text());
        e
    }

    /// Encyclopedia entry for terrain types.
    pub fn terrain_types() -> (e: EncyclopediaEntry)
        ensures
            e@ == terrain_types_text(),
    {
        let e = EncyclopediaBuilder::new("Terrain Types")
            .description("Different terrains affect combat and movement:")
            .description("")
            .description("• Grasslands - Open, no bonuses")
            .description("• Forest - Cover, bonus for Elves")
            .description("• Mountain - High ground, bonus for Dwarves")
            .description("• Hills - Elevated, minor defense bonus")
            .description("• Swamp - Difficult, movement penalty")
            .description("• Haunted Woods - Cursed, magical effects")
            .stat("Total Terrain Types", "7")
            .tip("Use terrain to your advantage")
            .tip("High ground provides defensive bonuses")
            .tip("Some races excel in specific terrains")
            .build();
        assert(e@ =~= terrain_types_text());
        e
    }

    /// Encyclopedia entry for a unit class, matched by name without regard
    /// to case; an unknown name gives the "Unknown Class" entry.
    pub fn unit_class_entry(class_name: &str) -> (e: EncyclopediaEntry)
        ensures
            e@ == class_text_for(lowercase(class_name@)),
    {
        let lower = to_lowercase(class_name);
        Self::class_entry_for_lowercase(&lower)
    }

    /// Encyclopedia entry for a unit class given by its lowercase name:
    /// "warrior", "archer", "mage" or "paladin"; any other name gives the
    /// "Unknown Class" entry.
    pub fn class_entry_for_lowercase(lower: &String) -> (e: EncyclopediaEntry)
        ensures
            e@ == class_text_for(lower@),
    {
        if *lower == "warrior".to_string() {
            let e = EncyclopediaBuilder::new("Warrior")
                .description("Frontline melee combat specialist")
                .description("Warriors excel at close-quarters combat.")
                .stat("Primary Role", "Tank / Melee DPS")
                .stat("Attack Type", "Slash / Blunt")
                .stat("Range", "Melee (1 hex)")
                .stat("Health", "High")
                .stat("Defense", "High")
                .tip("Position warriors at the front")
                .tip("Use terrain for defensive bonuses")
                .tip("Equip heavy armor for survivability")
                .build();
            assert(e@ =~= warrior_class_text());
            e
        } else if *lower == "archer".to_string() {
            let e = EncyclopediaBuilder::new("Archer")
                .description("Long-range precision attacker")
                .description("Archers strike from a distance with deadly accuracy.")
                .stat("Primary Role", "Ranged DPS")
                .stat("Attack Type", "Pierce")
                .stat("Range", "Ranged (3-5 hexes)")
                .stat("Health", "Medium")
                .stat("Defense", "Low")
                .tip("Keep archers behind your frontline")
                .tip("Use high ground for range bonuses")
                .tip("Focus on eliminating enemy mages first")
                .build();
            assert(e@ =~= archer_class_text());
            e
        } else if *lower == "mage".to_string() {
            let e = EncyclopediaBuilder::new("Mage")
                .description("Powerful magic user with area effects")
                .description("Mages deal devastating magical damage.")
                .stat("Primary Role", "Magic DPS")
                .stat("Attack Type", "Fire / Dark")
                .stat("Range", "Medium (2-4 hexes)")
                .stat("Health", "Low")
                .stat("Defense", "Very Low")
                .tip("Protect mages from melee attackers")
                .tip("Mages ignore armor with magic damage")
                .tip("Save mana for critical moments")
                .build();
            assert(e@ =~= mage_class_text());
            e
        } else if *lower == "paladin".to_string() {
            let e = EncyclopediaBuilder::new("Paladin")
                .description("Holy warrior with healing abilities")
                .description("Paladins combine combat prowess with divine magic.")
                .stat("Primary Role", "Tank / Support")
                .stat("Attack Type", "Fire (Holy)")
                .stat("Range", "Melee to Short")
                .stat("Health", "Very High")
                .stat("Defense", "High")
                .tip("Paladins can heal allies")
                .tip("Use holy damage against dark enemies")
                .tip("Position near allies to provide support")
                .build();
            assert(e@ =~= paladin_class_text());
            e
        } else {
            let e = EncyclopediaBuilder::new("Unknown Class")
                .description("No information available for this class.")
                .build();
            assert(e@ =~= unknown_class_text());
            e
        }
    }
}

} // verus!
