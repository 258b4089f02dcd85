//! Encyclopedia content: guide entries built as mechanic entries, their
//! rendering as text lines, and the comprehensive unit, terrain and
//! mechanics pages built from the encyclopedia's registered data.
use vstd::prelude::*;
use crate::encyclopedia::{Encyclopedia, EncyclopediaEntry, MechanicEntry, TerrainEntry, UnitEntry};
use crate::guide::{
    self, archer_class_text, character_classes_text, character_races_text, class_text_for,
    combat_system_text, equipment_system_text, lowercase, mage_class_text,
    movement_system_text, paladin_class_text, terrain_types_text, unknown_class_text,
    warrior_class_text, GuideText,
};
use crate::text::{
    decimal, decimal_text, join_lines, law_join_then_split, join_with_newlines, split_at_newlines, split_lines,
    string_texts,
};

verus! {

/// Detail lines of a built entry: its stats under "Stats:" and its tips
/// under "Tips:", each heading present only when it has lines.
pub open spec fn detail_lines(t: GuideText) -> Seq<Seq<char>> {
    (if t.stats.len() > 0 {
        seq!["Stats:"@] + t.stats.map_values(
            |p: (Seq<char>, Seq<char>)| "  • "@ + p.0 + ": "@ + p.1,
        )
    } else {
        Seq::empty()
    }) + (if t.tips.len() > 0 {
        seq!["Tips:"@] + t.tips.map_values(|x: Seq<char>| "  • "@ + x)
    } else {
        Seq::empty()
    })
}

/// The mechanic entry built from a guide text: category "Guide",
/// description lines joined by line breaks, stats and tips as details, no
/// examples.
pub open spec fn built_entry(e: EncyclopediaEntry, t: GuideText) -> bool {
    e matches EncyclopediaEntry::Mechanic(m) && {
        &&& m.title@ == t.title
        &&& m.category@ == "Guide"@
        &&& m.description@ == join_lines(t.description)
        &&& string_texts(m.details@) == detail_lines(t)
        &&& m.examples@.len() == 0
    }
}

/// Builder of guide entries, which become mechanic entries.
pub struct EncyclopediaBuilder {
    title: String,
    description: Vec<String>,
    stats: Vec<(String, String)>,
    tips: Vec<String>,
}

impl View for EncyclopediaBuilder {
    type V = GuideText;

    closed spec fn view(&self) -> GuideText {
        GuideText {
            title: self.title@,
            description: guide::texts(self.description@),
            stats: guide::pair_texts(self.stats@),
            tips: guide::texts(self.tips@),
        }
    }
}

impl EncyclopediaBuilder {
    /// Start an entry with the given title and no lines, stats or tips.
    pub fn new(title: &str) -> (b: EncyclopediaBuilder)
        ensures
            b@ == (GuideText {
                title: title@,
                description: Seq::empty(),
                stats: Seq::empty(),
                tips: Seq::empty(),
            }),
    {
        let b = EncyclopediaBuilder {
            title: title.to_string(),
            description: Vec::new(),
            stats: Vec::new(),
            tips: Vec::new(),
        };
        assert(b@.description =~= Seq::empty());
        assert(b@.stats =~= Seq::empty());
        assert(b@.tips =~= Seq::empty());
        b
    }

    /// Append a description line.
    pub fn description(self, line: &str) -> (b: EncyclopediaBuilder)
        ensures
            b@ == (GuideText { description: self@.description.push(line@), ..self@ }),
    {
        let mut b = self;
        let ghost old_d = b.description@;
        b.description.push(line.to_string());
        assert(guide::texts(b.description@) =~= guide::texts(old_d).push(line@));
        b
    }

    /// Append a key/value stat.
    pub fn stat(self, key: &str, value: &str) -> (b: EncyclopediaBuilder)
        ensures
            b@ == (GuideText { stats: self@.stats.push((key@, value@)), ..self@ }),
    {
        let mut b = self;
        let ghost old_s = b.stats@;
        b.stats.push((key.to_string(), value.to_string()));
        assert(guide::pair_texts(b.stats@) =~= guide::pair_texts(old_s).push((key@, value@)));
        b
    }

    /// Append a tip.
    pub fn tip(self, tip: &str) -> (b: EncyclopediaBuilder)
        ensures
            b@ == (GuideText { tips: self@.tips.push(tip@), ..self@ }),
    {
        let mut b = self;
        let ghost old_t = b.tips@;
        b.tips.push(tip.to_string());
        assert(guide::texts(b.tips@) =~= guide::texts(old_t).push(tip@));
        b
    }

    /// The mechanic entry: category "Guide", the description lines joined
    /// by line breaks, the stats and tips as detail lines.
    pub fn build(self) -> (e: EncyclopediaEntry)
        ensures
            built_entry(e, self@),
    {
        let ghost t = self@;
        let mut details: Vec<String> = Vec::new();
        let ghost stat_lines = if t.stats.len() > 0 {
            seq!["Stats:"@] + t.stats.map_values(|p: (Seq<char>, Seq<char>)| "  • "@ + p.0 + ": "@ + p.1)
        } else {
            Seq::empty()
        };
        if self.stats.len() > 0 {
            details.push("Stats:".to_string());
            let mut i: usize = 0;
            while i < self.stats.len()
                invariant
                    t == self@,
                    t.stats.len() > 0,
                    0 <= i <= self.stats@.len(),
                    string_texts(details@) == seq!["Stats:"@] + t.stats.take(i as int).map_values(
                        |p: (Seq<char>, Seq<char>)| "  • "@ + p.0 + ": "@ + p.1,
                    ),
                decreases self.stats@.len() - i,
            {
                let mut line = "  • ".to_string();
                line.append(self.stats[i].0.as_str());
                line.append(": ");
                line.append(self.stats[i].1.as_str());
                let ghost before = string_texts(details@);
                details.push(line);
                proof {
                    assert(t.stats[i as int] == (self.stats@[i as int].0@, self.stats@[i as int].1@));
                    assert(string_texts(details@) =~= before.push(line@));
                    assert(t.stats.take(i + 1) =~= t.stats.take(i as int).push(t.stats[i as int]));
                }
                i = i + 1;
                proof {
                    assert(string_texts(details@) =~= seq!["Stats:"@] + t.stats.take(i as int).map_values(
                        |p: (Seq<char>, Seq<char>)| "  • "@ + p.0 + ": "@ + p.1,
                    ));
                }
            }
            proof {
                assert(t.stats.take(t.stats.len() as int) =~= t.stats);
            }
        } else {
            proof {
                assert(string_texts(details@) =~= Seq::<Seq<char>>::empty());
            }
        }
        let ghost after_stats = string_texts(details@);
        assert(after_stats == stat_lines);
        if self.tips.len() > 0 {
            details.push("Tips:".to_string());
            proof {
                assert(string_texts(details@) =~= stat_lines + seq!["Tips:"@]);
            }
            let mut i: usize = 0;
            while i < self.tips.len()
                invariant
                    t == self@,
                    t.tips.len() > 0,
                    0 <= i <= self.tips@.len(),
                    string_texts(details@) == stat_lines + (seq!["Tips:"@] + t.tips.take(i as int).map_values(
                        |x: Seq<char>| "  • "@ + x,
                    )),
                decreases self.tips@.len() - i,
            {
                let mut line = "  • ".to_string();
                line.append(self.tips[i].as_str());
                let ghost before = string_texts(details@);
                details.push(line);
                proof {
                    assert(t.tips[i as int] == self.tips@[i as int]@);
                    assert(string_texts(details@) =~= before.push(line@));
                    assert(t.tips.take(i + 1) =~= t.tips.take(i as int).push(t.tips[i as int]));
                }
                i = i + 1;
                proof {
                    assert(string_texts(details@) =~= stat_lines + (seq!["Tips:"@] + t.tips.take(i as int).map_values(
                        |x: Seq<char>| "  • "@ + x,
                    )));
                }
            }
            proof {
                assert(t.tips.take(t.tips.len() as int) =~= t.tips);
            }
        } else {
            proof {
                assert(string_texts(details@) =~= stat_lines + Seq::<Seq<char>>::empty());
            }
        }
        let description = join_with_newlines(&self.description);
        proof {
            assert(guide::texts(self.description@) =~= string_texts(self.description@));
        }
        let examples: Vec<String> = Vec::new();
        EncyclopediaEntry::Mechanic(
            MechanicEntry {
                title: self.title,
                category: "Guide".to_string(),
                description,
                details,
                examples,
            },
        )
    }

    /// A builder holding the text of a guide entry.
    fn from_guide(e: guide::EncyclopediaEntry) -> (b: EncyclopediaBuilder)
        ensures
            b@ == e@,
    {
        EncyclopediaBuilder {
            title: e.title,
            description: e.description,
            stats: e.stats,
            tips: e.tips,
        }
    }
}

/// Built-in guide entries, built as mechanic entries.
pub struct EncyclopediaLibrary;

impl EncyclopediaLibrary {
    /// Encyclopedia entry for the combat system.
    pub fn combat_system() -> (e: EncyclopediaEntry)
        ensures
            built_entry(e, combat_system_text()),
    {
        EncyclopediaBuilder::from_guide(guide::EncyclopediaLibrary::combat_system()).build()
    }

    /// Encyclopedia entry for movement mechanics.
    pub fn movement_system() -> (e: EncyclopediaEntry)
        ensures
            built_entry(e, movement_system_text()),
    {
        EncyclopediaBuilder::from_guide(guide::EncyclopediaLibrary::movement_system()).build()
    }

    /// Encyclopedia entry for character classes.
    pub fn character_classes() -> (e: EncyclopediaEntry)
        ensures
            built_entry(e, character_classes_text()),
    {
        EncyclopediaBuilder::from_guide(guide::EncyclopediaLibrary::character_classes()).build()
    }

    /// Encyclopedia entry for character races.
    pub fn character_races() -> (e: EncyclopediaEntry)
        ensures
            built_entry(e, character_races_text()),
    {
        EncyclopediaBuilder::from_guide(guide::EncyclopediaLibrary::character_races()).build()
    }

    /// Encyclopedia entry for the equipment system.
    pub fn equipment_system() -> (e: EncyclopediaEntry)
        ensures
            built_entry(e, equipment_system_text()),
    {
        EncyclopediaBuilder::from_guide(guide::EncyclopediaLibrary::equipment_system()).build()
    }

    /// Encyclopedia entry for terrain types.
    pub fn terrain_types() -> (e: EncyclopediaEntry)
        ensures
            built_entry(e, terrain_types_text()),
    {
        EncyclopediaBuilder::from_guide(guide::EncyclopediaLibrary::terrain_types()).build()
    }

    /// Encyclopedia entry for a unit class, matched by name without regard
    /// to case; an unknown name gives the "Unknown Class" entry.
    pub fn unit_class_entry(class_name: &str) -> (e: EncyclopediaEntry)
        ensures
            built_entry(e, class_text_for(lowercase(class_name@))),
    {
        EncyclopediaBuilder::from_guide(guide::EncyclopediaLibrary::unit_class_entry(class_name)).build()
    }
}

/// Closing border line of a rendered entry.
pub open spec fn entry_bottom_border() -> Seq<char> {
    "╚═══════════════════════════════════════════════════════════════════════╝"@
}

/// Text lines of an entry: for a mechanic entry a framed title, the
/// description split at line breaks, the details after a blank line (when
/// there are any), and a closing border; other entries are not rendered.
pub open spec fn format_entry_lines(e: EncyclopediaEntry) -> Seq<Seq<char>> {
    match e {
        EncyclopediaEntry::Mechanic(m) => seq![
            "╔════════ "@ + m.title@ + " ════════╗"@,
            ""@,
        ] + split_lines(m.description@) + (if m.details@.len() > 0 {
            seq![""@] + string_texts(m.details@)
        } else {
            Seq::empty()
        }) + seq![""@, entry_bottom_border(), ""@],
        _ => seq!["[Non-guide entry formatting not implemented]"@],
    }
}

/// Render an encyclopedia entry as text lines.
pub fn format_entry(entry: &EncyclopediaEntry) -> (lines: Vec<String>)
    ensures
        string_texts(lines@) == format_entry_lines(*entry),
{
    let mut lines: Vec<String> = Vec::new();
    match entry {
        EncyclopediaEntry::Mechanic(mech) => {
            let mut header = "╔════════ ".to_string();
            header.append(mech.title.as_str());
            header.append(" ════════╗");
            lines.push(header);
            lines.push("".to_string());
            let pieces = split_at_newlines(mech.description.as_str());
            let mut i: usize = 0;
            let ghost start = string_texts(lines@);
            while i < pieces.len()
                invariant
                    0 <= i <= pieces@.len(),
                    string_texts(lines@) == start + string_texts(pieces@).take(i as int),
                decreases pieces@.len() - i,
            {
                let ghost before = string_texts(lines@);
                lines.push(pieces[i].clone());
                proof {
                    assert(string_texts(lines@) =~= before.push(pieces@[i as int]@));
                    assert(string_texts(pieces@).take(i + 1) =~= string_texts(pieces@).take(i as int).push(pieces@[i as int]@));
                }
                i = i + 1;
            }
            proof {
                assert(string_texts(pieces@).take(pieces@.len() as int) =~= string_texts(pieces@));
            }
            let ghost mid = string_texts(lines@);
            if mech.details.len() > 0 {
                lines.push("".to_string());
                let mut j: usize = 0;
                let ghost start2 = string_texts(lines@);
                while j < mech.details.len()
                    invariant
                        0 <= j <= mech.details@.len(),
                        string_texts(lines@) == start2 + string_texts(mech.details@).take(j as int),
                    decreases mech.details@.len() - j,
                {
                    let ghost before = string_texts(lines@);
                    lines.push(mech.details[j].clone());
                    proof {
                        assert(string_texts(lines@) =~= before.push(mech.details@[j as int]@));
                        assert(string_texts(mech.details@).take(j + 1) =~= string_texts(mech.details@).take(j as int).push(mech.details@[j as int]@));
                    }
                    j = j + 1;
                }
                proof {
                    assert(string_texts(mech.details@).take(mech.details@.len() as int) =~= string_texts(mech.details@));
                    assert(string_texts(lines@) =~= mid + (seq![""@] + string_texts(mech.details@)));
                }
            }
            let ghost mid2 = string_texts(lines@);
            lines.push("".to_string());
            lines.push("╚═══════════════════════════════════════════════════════════════════════╝".to_string());
            lines.push("".to_string());
            proof {
                assert(string_texts(lines@) =~= mid2 + seq![""@, entry_bottom_border(), ""@]);
                assert(string_texts(lines@) =~= format_entry_lines(*entry));
            }
        },
        _ => {
            lines.push("[Non-guide entry formatting not implemented]".to_string());
            proof {
                assert(string_texts(lines@) =~= format_entry_lines(*entry));
            }
        },
    }
    lines
}

/// Text lines of the mechanic entry built from a guide text.
pub open spec fn built_entry_lines(t: GuideText) -> Seq<Seq<char>> {
    seq!["╔════════ "@ + t.title + " ════════╗"@, ""@] + split_lines(join_lines(t.description)) + (
    if detail_lines(t).len() > 0 {
        seq![""@] + detail_lines(t)
    } else {
        Seq::empty()
    }) + seq![""@, entry_bottom_border(), ""@]
}

proof fn lemma_built_entry_lines(e: EncyclopediaEntry, t: GuideText)
    requires
        built_entry(e, t),
    ensures
        format_entry_lines(e) == built_entry_lines(t),
{
}

/// Groups of lines concatenated in order.
pub open spec fn concat_groups(groups: Seq<Seq<Seq<char>>>) -> Seq<Seq<char>>
    decreases groups.len(),
{
    if groups.len() == 0 {
        Seq::empty()
    } else {
        concat_groups(groups.drop_last()) + groups.last()
    }
}

/// Each text of `items` behind `prefix`.
pub open spec fn prefixed(prefix: Seq<char>, items: Seq<Seq<char>>) -> Seq<Seq<char>> {
    items.map_values(|x: Seq<char>| prefix + x)
}

/// Line of one attack of a registered unit.
pub open spec fn attack_line(a: crate::encyclopedia::UnitAttackInfo) -> Seq<char> {
    "    - "@ + a.name@ + " ("@ + decimal(a.damage as int) + " dmg, "@ + decimal(a.range as int)
        + " range, "@ + a.damage_type@ + ")"@
}

/// Lines describing a registered unit: name, race and class; description;
/// stats; its attacks (if any); its evolution line (if any); a blank line.
pub open spec fn unit_lines(u: UnitEntry) -> Seq<Seq<char>> {
    seq![
        "• "@ + u.name@ + " ["@ + u.race@ + " - "@ + u.class@ + "]"@,
        "  "@ + u.description@,
        "  Stats: HP "@ + decimal(u.stats.health as int) + "/"@ + decimal(u.stats.max_health as int)
            + " | ATK "@ + decimal(u.stats.attack_strength as int) + " | DEF "@ + decimal(
            u.stats.defense as int,
        ) + " | MOV "@ + decimal(u.stats.movement_speed as int) + " | Range "@
            + u.stats.range_category@,
    ] + (if u.attacks@.len() > 0 {
        seq!["  Attacks:"@] + u.attacks@.map_values(|a: crate::encyclopedia::UnitAttackInfo| attack_line(a))
    } else {
        Seq::empty()
    }) + (if u.evolution.previous_form is Some || u.evolution.next_forms@.len() > 0 {
        seq!["  Evolution:"@] + (match u.evolution.previous_form {
            Some(p) => seq!["    ← Previous: "@ + p@],
            None => Seq::empty(),
        }) + prefixed("    → Next: "@, string_texts(u.evolution.next_forms@))
    } else {
        Seq::empty()
    }) + seq![""@]
}

/// Lines describing a registered terrain: name and movement cost;
/// description; a blank line.
pub open spec fn terrain_lines(t: TerrainEntry) -> Seq<Seq<char>> {
    seq![
        "• "@ + t.name@ + " (Cost: "@ + decimal(t.movement_cost as int) + ")"@,
        "  "@ + t.description@,
        ""@,
    ]
}

/// Lines describing a registered mechanic: title and category; description;
/// its details and examples (each heading only when it has lines); a blank line.
pub open spec fn mechanic_lines(m: MechanicEntry) -> Seq<Seq<char>> {
    seq!["• "@ + m.title@ + " ["@ + m.category@ + "]"@, "  "@ + m.description@] + (
    if m.details@.len() > 0 {
        seq!["  Details:"@] + prefixed("    - "@, string_texts(m.details@))
    } else {
        Seq::empty()
    }) + (if m.examples@.len() > 0 {
        seq!["  Examples:"@] + prefixed("    - "@, string_texts(m.examples@))
    } else {
        Seq::empty()
    }) + seq![""@]
}

/// Separator line between the guide entries and the registered data.
pub open spec fn section_separator() -> Seq<char> {
    "════════════════════════════════════════════════════════════════════════"@
}

/// Page framing: top border, title line, middle border, blank line.
pub open spec fn page_header(title_line: Seq<char>) -> Seq<Seq<char>> {
    seq!["╔═══════════════════════════════════════════════════════════════════════╗"@, title_line, "╠═══════════════════════════════════════════════════════════════════════╣"@, ""@]
}

/// The unit page: the class and race guides, the four class entries, then
/// every registered unit.
pub open spec fn units_page(enc: Encyclopedia) -> Seq<Seq<char>> {
    page_header("║                        📖 UNIT ENCYCLOPEDIA                            ║"@) + built_entry_lines(character_classes_text()) + built_entry_lines(
        character_races_text(),
    ) + built_entry_lines(class_text_for(lowercase("Warrior"@))) + built_entry_lines(
        class_text_for(lowercase("Archer"@)),
    ) + built_entry_lines(class_text_for(lowercase("Mage"@))) + built_entry_lines(
        class_text_for(lowercase("Paladin"@)),
    ) + seq![section_separator(), "ALL REGISTERED UNITS:"@] + concat_groups(
        enc.units@.map_values(|u: UnitEntry| unit_lines(u)),
    )
}

/// The terrain page: the terrain guide, then every registered terrain.
pub open spec fn terrain_page(enc: Encyclopedia) -> Seq<Seq<char>> {
    page_header("║                       🗺️  TERRAIN GUIDE                                ║"@) + built_entry_lines(terrain_types_text()) + seq![
        section_separator(),
        "ALL REGISTERED TERRAINS:"@,
    ] + concat_groups(enc.terrains@.map_values(|t: TerrainEntry| terrain_lines(t)))
}

/// The mechanics page: the combat, movement and equipment guides, then
/// every registered mechanic.
pub open spec fn mechanics_page(enc: Encyclopedia) -> Seq<Seq<char>> {
    page_header("║                      ⚙️  GAME MECHANICS                                ║"@) + built_entry_lines(combat_system_text()) + built_entry_lines(
        movement_system_text(),
    ) + built_entry_lines(equipment_system_text()) + seq![
        section_separator(),
        "ALL REGISTERED MECHANICS:"@,
    ] + concat_groups(enc.mechanics@.map_values(|m: MechanicEntry| mechanic_lines(m)))
}

/// Append `more` to `lines`.
fn append_lines(lines: &mut Vec<String>, more: Vec<String>)
    ensures
        string_texts(final(lines)@) == string_texts(old(lines)@) + string_texts(more@),
{
    let mut i: usize = 0;
    let ghost start = string_texts(lines@);
    while i < more.len()
        invariant
            0 <= i <= more@.len(),
            string_texts(lines@) == start + string_texts(more@).take(i as int),
        decreases more@.len() - i,
    {
        let ghost before = string_texts(lines@);
        lines.push(more[i].clone());
        proof {
            assert(string_texts(lines@) =~= before.push(more@[i as int]@));
            assert(string_texts(more@).take(i + 1) =~= string_texts(more@).take(i as int).push(
                more@[i as int]@,
            ));
        }
        i = i + 1;
    }
    proof {
        assert(string_texts(more@).take(more@.len() as int) =~= string_texts(more@));
    }
}

/// Append each of `items` behind `prefix` to `lines`.
fn append_prefixed(lines: &mut Vec<String>, prefix: &str, items: &Vec<String>)
    ensures
        string_texts(final(lines)@) == string_texts(old(lines)@) + prefixed(prefix@, string_texts(items@)),
{
    let mut i: usize = 0;
    let ghost start = string_texts(lines@);
    while i < items.len()
        invariant
            0 <= i <= items@.len(),
            string_texts(lines@) == start + prefixed(prefix@, string_texts(items@)).take(i as int),
        decreases items@.len() - i,
    {
        let mut line = prefix.to_string();
        line.append(items[i].as_str());
        let ghost before = string_texts(lines@);
        lines.push(line);
        proof {
            assert(string_texts(lines@) =~= before.push(prefix@ + items@[i as int]@));
            assert(prefixed(prefix@, string_texts(items@)).take(i + 1) =~= prefixed(prefix@, string_texts(items@)).take(i as int).push(
                prefix@ + items@[i as int]@,
            ));
        }
        i = i + 1;
    }
    proof {
        assert(prefixed(prefix@, string_texts(items@)).take(items@.len() as int) =~= prefixed(prefix@, string_texts(items@)));
    }
}

/// Append the lines of a rendered guide entry.
fn append_entry(lines: &mut Vec<String>, entry: &EncyclopediaEntry, Ghost(t): Ghost<GuideText>)
    requires
        built_entry(*entry, t),
    ensures
        string_texts(final(lines)@) == string_texts(old(lines)@) + built_entry_lines(t),
{
    proof {
        lemma_built_entry_lines(*entry, t);
    }
    append_lines(lines, format_entry(entry));
}

/// The page framing lines.
fn header_lines(title_line: &str) -> (lines: Vec<String>)
    ensures
        string_texts(lines@) == page_header(title_line@),
{
    let mut lines: Vec<String> = Vec::new();
    lines.push("╔═══════════════════════════════════════════════════════════════════════╗".to_string());
    lines.push(title_line.to_string());
    lines.push("╠═══════════════════════════════════════════════════════════════════════╣".to_string());
    lines.push("".to_string());
    assert(string_texts(lines@) =~= page_header(title_line@));
    lines
}

/// Lines describing one registered unit.
fn unit_description_lines(u: &UnitEntry) -> (lines: Vec<String>)
    ensures
        string_texts(lines@) == unit_lines(*u),
{
    let mut lines: Vec<String> = Vec::new();
    let mut l1 = "• ".to_string();
    l1.append(u.name.as_str());
    l1.append(" [");
    l1.append(u.race.as_str());
    l1.append(" - ");
    l1.append(u.class.as_str());
    l1.append("]");
    lines.push(l1);
    let mut l2 = "  ".to_string();
    l2.append(u.description.as_str());
    lines.push(l2);
    let mut l3 = "  Stats: HP ".to_string();
    l3.append(decimal_text(u.stats.health as i64).as_str());
    l3.append("/");
    l3.append(decimal_text(u.stats.max_health as i64).as_str());
    l3.append(" | ATK ");
    l3.append(decimal_text(u.stats.attack_strength as i64).as_str());
    l3.append(" | DEF ");
    l3.append(decimal_text(u.stats.defense as i64).as_str());
    l3.append(" | MOV ");
    l3.append(decimal_text(u.stats.movement_speed as i64).as_str());
    l3.append(" | Range ");
    l3.append(u.stats.range_category.as_str());
    lines.push(l3);
    let ghost head = string_texts(lines@);
    assert(head =~= seq![l1@, l2@, l3@]);
    let ghost attack_part = if u.attacks@.len() > 0 {
        seq!["  Attacks:"@] + u.attacks@.map_values(|a: crate::encyclopedia::UnitAttackInfo| attack_line(a))
    } else {
        Seq::empty()
    };
    if u.attacks.len() > 0 {
        lines.push("  Attacks:".to_string());
        let mut i: usize = 0;
        while i < u.attacks.len()
            invariant
                0 <= i <= u.attacks@.len(),
                u.attacks@.len() > 0,
                string_texts(lines@) == head + (seq!["  Attacks:"@] + u.attacks@.take(i as int).map_values(
                    |a: crate::encyclopedia::UnitAttackInfo| attack_line(a),
                )),
            decreases u.attacks@.len() - i,
        {
            let atk = &u.attacks[i];
            let mut line = "    - ".to_string();
            line.append(atk.name.as_str());
            line.append(" (");
            line.append(decimal_text(atk.damage as i64).as_str());
            line.append(" dmg, ");
            line.append(decimal_text(atk.range as i64).as_str());
            line.append(" range, ");
            line.append(atk.damage_type.as_str());
            line.append(")");
            let ghost before = string_texts(lines@);
            lines.push(line);
            proof {
                assert(string_texts(lines@) =~= before.push(attack_line(u.attacks@[i as int])));
                assert(u.attacks@.take(i + 1) =~= u.attacks@.take(i as int).push(u.attacks@[i as int]));
            }
            i = i + 1;
            proof {
                assert(string_texts(lines@) =~= head + (seq!["  Attacks:"@] + u.attacks@.take(i as int).map_values(
                    |a: crate::encyclopedia::UnitAttackInfo| attack_line(a),
                )));
            }
        }
        proof {
            assert(u.attacks@.take(u.attacks@.len() as int) =~= u.attacks@);
        }
    } else {
        assert(string_texts(lines@) =~= head + Seq::<Seq<char>>::empty());
    }
    let ghost mid = string_texts(lines@);
    assert(mid == head + attack_part);
    let ghost evo_part = if u.evolution.previous_form is Some || u.evolution.next_forms@.len() > 0 {
        seq!["  Evolution:"@] + (match &u.evolution.previous_form {
            Some(p) => seq!["    ← Previous: "@ + p@],
            None => Seq::empty(),
        }) + prefixed("    → Next: "@, string_texts(u.evolution.next_forms@))
    } else {
        Seq::empty()
    };
    if u.evolution.previous_form.is_some() || u.evolution.next_forms.len() > 0 {
        lines.push("  Evolution:".to_string());
        let ghost with_heading = string_texts(lines@);
        if let Some(prev) = &u.evolution.previous_form {
            let mut line = "    ← Previous: ".to_string();
            line.append(prev.as_str());
            lines.push(line);
        }
        let ghost with_prev = string_texts(lines@);
        assert(with_prev =~= with_heading + (match &u.evolution.previous_form {
            Some(p) => seq!["    ← Previous: "@ + p@],
            None => Seq::<Seq<char>>::empty(),
        }));
        append_prefixed(&mut lines, "    → Next: ", &u.evolution.next_forms);
        assert(string_texts(lines@) =~= mid + evo_part);
    } else {
        assert(string_texts(lines@) =~= mid + evo_part);
    }
    let ghost before_last = string_texts(lines@);
    lines.push("".to_string());
    assert(string_texts(lines@) =~= before_last + seq![""@]);
    lines
}

/// Lines describing one registered terrain.
fn terrain_description_lines(t: &TerrainEntry) -> (lines: Vec<String>)
    ensures
        string_texts(lines@) == terrain_lines(*t),
{
    let mut lines: Vec<String> = Vec::new();
    let mut l1 = "• ".to_string();
    l1.append(t.name.as_str());
    l1.append(" (Cost: ");
    l1.append(decimal_text(t.movement_cost as i64).as_str());
    l1.append(")");
    lines.push(l1);
    let mut l2 = "  ".to_string();
    l2.append(t.description.as_str());
    lines.push(l2);
    lines.push("".to_string());
    assert(string_texts(lines@) =~= terrain_lines(*t));
    lines
}

/// Lines describing one registered mechanic.
fn mechanic_description_lines(m: &MechanicEntry) -> (lines: Vec<String>)
    ensures
        string_texts(lines@) == mechanic_lines(*m),
{
    let mut lines: Vec<String> = Vec::new();
    let mut l1 = "• ".to_string();
    l1.append(m.title.as_str());
    l1.append(" [");
    l1.append(m.category.as_str());
    l1.append("]");
    lines.push(l1);
    let mut l2 = "  ".to_string();
    l2.append(m.description.as_str());
    lines.push(l2);
    let ghost head = string_texts(lines@);
    assert(head =~= seq![l1@, l2@]);
    if m.details.len() > 0 {
        lines.push("  Details:".to_string());
        append_prefixed(&mut lines, "    - ", &m.details);
    }
    let ghost mid = string_texts(lines@);
    assert(mid =~= head + (if m.details@.len() > 0 {
        seq!["  Details:"@] + prefixed("    - "@, string_texts(m.details@))
    } else {
        Seq::<Seq<char>>::empty()
    }));
    if m.examples.len() > 0 {
        lines.push("  Examples:".to_string());
        append_prefixed(&mut lines, "    - ", &m.examples);
    }
    let ghost mid2 = string_texts(lines@);
    assert(mid2 =~= mid + (if m.examples@.len() > 0 {
        seq!["  Examples:"@] + prefixed("    - "@, string_texts(m.examples@))
    } else {
        Seq::<Seq<char>>::empty()
    }));
    lines.push("".to_string());
    assert(string_texts(lines@) =~= mechanic_lines(*m));
    lines
}

/// The unit encyclopedia page: the class and race guides, an entry for each
/// of the four classes, then every registered unit.
pub fn get_units_content_comprehensive(encyclopedia: &Encyclopedia) -> (lines: Vec<String>)
    ensures
        string_texts(lines@) == units_page(*encyclopedia),
{
    let mut lines = header_lines("║                        📖 UNIT ENCYCLOPEDIA                            ║");
    append_entry(&mut lines, &EncyclopediaLibrary::character_classes(), Ghost(character_classes_text()));
    append_entry(&mut lines, &EncyclopediaLibrary::character_races(), Ghost(character_races_text()));
    append_entry(&mut lines, &EncyclopediaLibrary::unit_class_entry("Warrior"), Ghost(class_text_for(lowercase("Warrior"@))));
    append_entry(&mut lines, &EncyclopediaLibrary::unit_class_entry("Archer"), Ghost(class_text_for(lowercase("Archer"@))));
    append_entry(&mut lines, &EncyclopediaLibrary::unit_class_entry("Mage"), Ghost(class_text_for(lowercase("Mage"@))));
    append_entry(&mut lines, &EncyclopediaLibrary::unit_class_entry("Paladin"), Ghost(class_text_for(lowercase("Paladin"@))));
    lines.push("════════════════════════════════════════════════════════════════════════".to_string());
    lines.push("ALL REGISTERED UNITS:".to_string());
    let ghost prefix = string_texts(lines@);
    let units = encyclopedia.all_units();
    let mut i: usize = 0;
    proof {
        assert(units@.take(0).map_values(|u: UnitEntry| unit_lines(u)) =~= Seq::<Seq<Seq<char>>>::empty());
        assert(string_texts(lines@) =~= prefix + concat_groups(Seq::<Seq<Seq<char>>>::empty()));
    }
    while i < units.len()
        invariant
            units@ == encyclopedia.units@,
            0 <= i <= units@.len(),
            string_texts(lines@) == prefix + concat_groups(units@.take(i as int).map_values(|u: UnitEntry| unit_lines(u))),
        decreases units@.len() - i,
    {
        let group = unit_description_lines(&units[i]);
        let ghost before = string_texts(lines@);
        append_lines(&mut lines, group);
        proof {
            let g = units@.take(i + 1).map_values(|u: UnitEntry| unit_lines(u));
            assert(g.drop_last() =~= units@.take(i as int).map_values(|u: UnitEntry| unit_lines(u)));
            assert(g.last() == unit_lines(units@[i as int]));
        }
        i = i + 1;
    }
    proof {
        assert(units@.take(units@.len() as int) =~= units@);
        assert(string_texts(lines@) =~= units_page(*encyclopedia));
    }
    lines
}

/// The terrain guide page: the terrain guide, then every registered terrain.
pub fn get_terrain_content_comprehensive(encyclopedia: &Encyclopedia) -> (lines: Vec<String>)
    ensures
        string_texts(lines@) == terrain_page(*encyclopedia),
{
    let mut lines = header_lines("║                       🗺️  TERRAIN GUIDE                                ║");
    append_entry(&mut lines, &EncyclopediaLibrary::terrain_types(), Ghost(terrain_types_text()));
    lines.push("════════════════════════════════════════════════════════════════════════".to_string());
    lines.push("ALL REGISTERED TERRAINS:".to_string());
    let ghost prefix = string_texts(lines@);
    let terrains = encyclopedia.all_terrain();
    let mut i: usize = 0;
    proof {
        assert(terrains@.take(0).map_values(|t: TerrainEntry| terrain_lines(t)) =~= Seq::<Seq<Seq<char>>>::empty());
        assert(string_texts(lines@) =~= prefix + concat_groups(Seq::<Seq<Seq<char>>>::empty()));
    }
    while i < terrains.len()
        invariant
            terrains@ == encyclopedia.terrains@,
            0 <= i <= terrains@.len(),
            string_texts(lines@) == prefix + concat_groups(terrains@.take(i as int).map_values(|t: TerrainEntry| terrain_lines(t))),
        decreases terrains@.len() - i,
    {
        let group = terrain_description_lines(&terrains[i]);
        append_lines(&mut lines, group);
        proof {
            let g = terrains@.take(i + 1).map_values(|t: TerrainEntry| terrain_lines(t));
            assert(g.drop_last() =~= terrains@.take(i as int).map_values(|t: TerrainEntry| terrain_lines(t)));
            assert(g.last() == terrain_lines(terrains@[i as int]));
        }
        i = i + 1;
    }
    proof {
        assert(terrains@.take(terrains@.len() as int) =~= terrains@);
        assert(string_texts(lines@) =~= terrain_page(*encyclopedia));
    }
    lines
}

/// The game mechanics page: the combat, movement and equipment guides,
/// then every registered mechanic.
pub fn get_mechanics_content_comprehensive(encyclopedia: &Encyclopedia) -> (lines: Vec<String>)
    ensures
        string_texts(lines@) == mechanics_page(*encyclopedia),
{
    let mut lines = header_lines("║                      ⚙️  GAME MECHANICS                                ║");
    append_entry(&mut lines, &EncyclopediaLibrary::combat_system(), Ghost(combat_system_text()));
    append_entry(&mut lines, &EncyclopediaLibrary::movement_system(), Ghost(movement_system_text()));
    append_entry(&mut lines, &EncyclopediaLibrary::equipment_system(), Ghost(equipment_system_text()));
    lines.push("════════════════════════════════════════════════════════════════════════".to_string());
    lines.push("ALL REGISTERED MECHANICS:".to_string());
    let ghost prefix = string_texts(lines@);
    let mechanics = encyclopedia.all_mechanics();
    let mut i: usize = 0;
    proof {
        assert(mechanics@.take(0).map_values(|m: MechanicEntry| mechanic_lines(m)) =~= Seq::<Seq<Seq<char>>>::empty());
        assert(string_texts(lines@) =~= prefix + concat_groups(Seq::<Seq<Seq<char>>>::empty()));
    }
    while i < mechanics.len()
        invariant
            mechanics@ == encyclopedia.mechanics@,
            0 <= i <= mechanics@.len(),
            string_texts(lines@) == prefix + concat_groups(mechanics@.take(i as int).map_values(|m: MechanicEntry| mechanic_lines(m))),
        decreases mechanics@.len() - i,
    {
        let group = mechanic_description_lines(&mechanics[i]);
        append_lines(&mut lines, group);
        proof {
            let g = mechanics@.take(i + 1).map_values(|m: MechanicEntry| mechanic_lines(m));
            assert(g.drop_last() =~= mechanics@.take(i as int).map_values(|m: MechanicEntry| mechanic_lines(m)));
            assert(g.last() == mechanic_lines(mechanics@[i as int]));
        }
        i = i + 1;
    }
    proof {
        assert(mechanics@.take(mechanics@.len() as int) =~= mechanics@);
        assert(string_texts(lines@) =~= mechanics_page(*encyclopedia));
    }
    lines
}


/// Law: a built guide entry, once formatted, shows its framed title, a
/// blank line, and then its description lines exactly as given (when it has
/// at least one and none holds a line break).
pub proof fn law_formatted_entry_shows_description(e: EncyclopediaEntry, t: GuideText)
    requires
        built_entry(e, t),
        t.description.len() > 0,
        forall|i: int| 0 <= i < t.description.len() ==> !(#[trigger] t.description[i]).contains(
            '\n',
        ),
    ensures
        format_entry_lines(e)[0] == "╔════════ "@ + t.title + " ════════╗"@,
        format_entry_lines(e)[1] == ""@,
        format_entry_lines(e).subrange(2, 2 + t.description.len() as int) == t.description,
{
    law_join_then_split(t.description);
    let lines = format_entry_lines(e);
    assert(lines.subrange(2, 2 + t.description.len() as int) =~= t.description);
}

/// Number of lines that describe the mechanic `m` on the mechanics page:
/// title, description and blank line, plus each non-empty list of details
/// or examples with its heading.
pub open spec fn mechanic_block_len(m: MechanicEntry) -> int {
    3int + (if m.details@.len() > 0 {
        m.details@.len() + 1int
    } else {
        0int
    }) + (if m.examples@.len() > 0 {
        m.examples@.len() + 1int
    } else {
        0int
    })
}

/// Total number of lines that describe the mechanics `ms`.
pub open spec fn mechanic_blocks_len(ms: Seq<MechanicEntry>) -> int
    decreases ms.len(),
{
    if ms.len() == 0 {
        0
    } else {
        mechanic_blocks_len(ms.drop_last()) + mechanic_block_len(ms.last())
    }
}

/// Line at which the guide part of the mechanics page ends and the list of
/// registered mechanics begins.
pub open spec fn mechanics_list_start() -> int {
    4int + built_entry_lines(combat_system_text()).len() + built_entry_lines(
        movement_system_text(),
    ).len() + built_entry_lines(equipment_system_text()).len() + 2
}

proof fn lemma_mechanic_lines_len(m: MechanicEntry)
    ensures
        mechanic_lines(m).len() == mechanic_block_len(m),
        mechanic_lines(m)[0] == "• "@ + m.title@ + " ["@ + m.category@ + "]"@,
{
}

proof fn lemma_mechanic_groups_len(ms: Seq<MechanicEntry>)
    ensures
        concat_groups(ms.map_values(|m: MechanicEntry| mechanic_lines(m))).len()
            == mechanic_blocks_len(ms),
    decreases ms.len(),
{
    if ms.len() > 0 {
        let g = ms.map_values(|m: MechanicEntry| mechanic_lines(m));
        assert(g.drop_last() =~= ms.drop_last().map_values(|m: MechanicEntry| mechanic_lines(m)));
        lemma_mechanic_groups_len(ms.drop_last());
        lemma_mechanic_lines_len(ms.last());
    }
}

proof fn lemma_mechanic_prefix_len(ms: Seq<MechanicEntry>, i: int)
    requires
        0 <= i < ms.len(),
    ensures
        mechanic_blocks_len(ms.take(i)) + mechanic_block_len(ms[i]) <= mechanic_blocks_len(ms),
    decreases ms.len(),
{
    if i == ms.len() - 1 {
        assert(ms.take(i) =~= ms.drop_last());
    } else {
        assert(ms.drop_last().take(i) =~= ms.take(i));
        lemma_mechanic_prefix_len(ms.drop_last(), i);
        assert(mechanic_block_len(ms.last()) >= 3);
    }
}

proof fn lemma_mechanic_block_start(ms: Seq<MechanicEntry>, i: int)
    requires
        0 <= i < ms.len(),
    ensures
        concat_groups(ms.map_values(|m: MechanicEntry| mechanic_lines(m)))[mechanic_blocks_len(
            ms.take(i),
        )] == mechanic_lines(ms[i])[0],
    decreases ms.len(),
{
    let g = ms.map_values(|m: MechanicEntry| mechanic_lines(m));
    let g0 = ms.drop_last().map_values(|m: MechanicEntry| mechanic_lines(m));
    assert(g.drop_last() =~= g0);
    assert(concat_groups(g) == concat_groups(g0) + g.last());
    assert(g.last() == mechanic_lines(ms.last()));
    lemma_mechanic_groups_len(ms.drop_last());
    lemma_mechanic_lines_len(ms[i]);
    lemma_mechanic_lines_len(ms.last());
    lemma_mechanic_blocks_nonneg(ms.take(i));
    let k = mechanic_blocks_len(ms.take(i));
    if i == ms.len() - 1 {
        assert(ms.take(i) =~= ms.drop_last());
        assert(k == concat_groups(g0).len());
        assert(concat_groups(g)[k] == g.last()[0]);
    } else {
        assert(ms.drop_last().take(i) =~= ms.take(i));
        assert(ms.drop_last()[i] == ms[i]);
        lemma_mechanic_block_start(ms.drop_last(), i);
        lemma_mechanic_prefix_len(ms.drop_last(), i);
        assert(k < concat_groups(g0).len());
        assert(concat_groups(g)[k] == concat_groups(g0)[k]);
    }
}

/// Law: the mechanics page has the four framing lines, the lines of the
/// combat, movement and equipment guides, the separator and heading, and
/// then for each registered mechanic, in order, a block of
/// `mechanic_block_len` lines that starts with "• TITLE [CATEGORY]".
pub proof fn law_mechanics_page_length(enc: Encyclopedia)
    ensures
        mechanics_page(enc).len() == mechanics_list_start() + mechanic_blocks_len(enc.mechanics@),
        forall|i: int|
            0 <= i < enc.mechanics@.len() ==> mechanics_page(enc)[mechanics_list_start()
                + mechanic_blocks_len(#[trigger] enc.mechanics@.take(i))] == "• "@
                + enc.mechanics@[i].title@ + " ["@ + enc.mechanics@[i].category@ + "]"@,
{
    let ms = enc.mechanics@;
    let head = page_header("║                      ⚙️  GAME MECHANICS                                ║"@)
        + built_entry_lines(combat_system_text()) + built_entry_lines(movement_system_text())
        + built_entry_lines(equipment_system_text()) + seq![
        section_separator(),
        "ALL REGISTERED MECHANICS:"@,
    ];
    let tail = concat_groups(ms.map_values(|m: MechanicEntry| mechanic_lines(m)));
    assert(mechanics_page(enc) == head + tail);
    assert(head.len() == mechanics_list_start());
    lemma_mechanic_groups_len(ms);
    assert forall|i: int| 0 <= i < ms.len() implies mechanics_page(enc)[mechanics_list_start()
        + mechanic_blocks_len(#[trigger] ms.take(i))] == "• "@ + ms[i].title@ + " ["@
        + ms[i].category@ + "]"@ by {
        lemma_mechanic_block_start(ms, i);
        lemma_mechanic_prefix_len(ms, i);
        lemma_mechanic_lines_len(ms[i]);
        assert(mechanic_blocks_len(ms.take(i)) >= 0) by {
            lemma_mechanic_blocks_nonneg(ms.take(i));
        }
    }
}

proof fn lemma_mechanic_blocks_nonneg(ms: Seq<MechanicEntry>)
    ensures
        mechanic_blocks_len(ms) >= 0,
    decreases ms.len(),
{
    if ms.len() > 0 {
        lemma_mechanic_blocks_nonneg(ms.drop_last());
    }
}

/// Law: a built guide entry lists every stat and every tip, in order: the
/// stats first, as "  • KEY: VALUE" lines under a "Stats:" heading, then the
/// tips, as "  • TIP" lines under a "Tips:" heading; each heading appears
/// exactly when its list is non-empty, whether or not the other one is.
pub proof fn law_built_entry_lists_stats_and_tips(e: EncyclopediaEntry, t: GuideText)
    requires
        built_entry(e, t),
    ensures
        e matches EncyclopediaEntry::Mechanic(m) && {
            let ds = string_texts(m.details@);
            let ns = if t.stats.len() > 0 { t.stats.len() + 1int } else { 0int };
            &&& ds.len() == ns + (if t.tips.len() > 0 { t.tips.len() + 1int } else { 0int })
            &&& t.stats.len() > 0 ==> ds[0] == "Stats:"@
            &&& forall|j: int|
                0 <= j < t.stats.len() ==> ds[1 + j] == "  • "@ + (#[trigger] t.stats[j]).0 + ": "@
                    + t.stats[j].1
            &&& t.tips.len() > 0 ==> ds[ns] == "Tips:"@
            &&& forall|j: int| 0 <= j < t.tips.len() ==> ds[ns + 1 + j] == "  • "@ + #[trigger] t.tips[j]
        },
{
    let m = e->Mechanic_0;
    let ds = string_texts(m.details@);
    let ns = if t.stats.len() > 0 { t.stats.len() + 1int } else { 0int };
    let sp = if t.stats.len() > 0 {
        seq!["Stats:"@] + t.stats.map_values(|p: (Seq<char>, Seq<char>)| "  • "@ + p.0 + ": "@ + p.1)
    } else {
        Seq::<Seq<char>>::empty()
    };
    let tp = if t.tips.len() > 0 {
        seq!["Tips:"@] + t.tips.map_values(|x: Seq<char>| "  • "@ + x)
    } else {
        Seq::<Seq<char>>::empty()
    };
    assert(ds == sp + tp);
    assert(sp.len() == ns);
    assert forall|j: int| 0 <= j < t.stats.len() implies ds[1 + j] == "  • "@ + (#[trigger] t.stats[j]).0
        + ": "@ + t.stats[j].1 by {
        assert(ds[1 + j] == sp[1 + j]);
    }
    assert forall|j: int| 0 <= j < t.tips.len() implies ds[ns + 1 + j] == "  • "@ + #[trigger] t.tips[j] by {
        assert(ds[ns + 1 + j] == tp[1 + j]);
    }
}

/// Every line of every group is a line of the groups put together.
proof fn lemma_concat_groups_contains(gs: Seq<Seq<Seq<char>>>, i: int, k: int)
    requires
        0 <= i < gs.len(),
        0 <= k < gs[i].len(),
    ensures
        concat_groups(gs).contains(gs[i][k]),
    decreases gs.len(),
{
    let front = concat_groups(gs.drop_last());
    assert(concat_groups(gs) == front + gs.last());
    if i == gs.len() - 1 {
        assert(concat_groups(gs)[front.len() + k] == gs[i][k]);
    } else {
        assert(gs.drop_last()[i] == gs[i]);
        lemma_concat_groups_contains(gs.drop_last(), i, k);
        let n = choose|n: int| 0 <= n < front.len() && front[n] == gs[i][k];
        assert(concat_groups(gs)[n] == gs[i][k]);
    }
}

/// Law: the block of a registered unit ends with its evolution section and
/// a blank line. The section is there exactly when the unit has a previous
/// form or at least one next form: an "  Evolution:" heading, then the
/// previous form (when there is one), then one "    → Next: FORM" line per
/// next form, in order. Without either, the block has no evolution lines.
pub proof fn law_unit_block_shows_evolution(u: UnitEntry)
    ensures
        ({
            let ls = unit_lines(u);
            let nf = u.evolution.next_forms@.len() as int;
            let np = if u.evolution.previous_form is Some { 1int } else { 0int };
            let has = u.evolution.previous_form is Some || nf > 0;
            let base = 3 + (if u.attacks@.len() > 0 { u.attacks@.len() + 1int } else { 0int });
            &&& ls.len() == base + (if has { 1 + np + nf } else { 0int }) + 1
            &&& ls[ls.len() - 1] == ""@
            &&& has ==> ls[base] == "  Evolution:"@
            &&& u.evolution.previous_form matches Some(p) ==> ls[base + 1] == "    ← Previous: "@ + p@
            &&& forall|j: int|
                0 <= j < nf ==> ls[base + 1 + np + j] == "    → Next: "@
                    + (#[trigger] u.evolution.next_forms@[j])@
        }),
{
    let ls = unit_lines(u);
    let nf = u.evolution.next_forms@.len() as int;
    let np = if u.evolution.previous_form is Some { 1int } else { 0int };
    let has = u.evolution.previous_form is Some || nf > 0;
    let head = seq![
        "• "@ + u.name@ + " ["@ + u.race@ + " - "@ + u.class@ + "]"@,
        "  "@ + u.description@,
        "  Stats: HP "@ + decimal(u.stats.health as int) + "/"@ + decimal(u.stats.max_health as int)
            + " | ATK "@ + decimal(u.stats.attack_strength as int) + " | DEF "@ + decimal(
            u.stats.defense as int,
        ) + " | MOV "@ + decimal(u.stats.movement_speed as int) + " | Range "@
            + u.stats.range_category@,
    ] + (if u.attacks@.len() > 0 {
        seq!["  Attacks:"@] + u.attacks@.map_values(|a: crate::encyclopedia::UnitAttackInfo| attack_line(a))
    } else {
        Seq::empty()
    });
    let prev: Seq<Seq<char>> = match u.evolution.previous_form {
        Some(p) => seq!["    ← Previous: "@ + p@],
        None => Seq::empty(),
    };
    let nexts = prefixed("    → Next: "@, string_texts(u.evolution.next_forms@));
    let evo = if has {
        seq!["  Evolution:"@] + prev + nexts
    } else {
        Seq::empty()
    };
    assert(ls == head + evo + seq![""@]);
    assert(prev.len() == np);
    assert(nexts.len() == nf);
    assert forall|j: int| 0 <= j < nf implies ls[head.len() + 1 + np + j] == "    → Next: "@
        + (#[trigger] u.evolution.next_forms@[j])@ by {
        assert(ls[head.len() + 1 + np + j] == evo[1 + np + j]);
        assert(evo[1 + np + j] == nexts[j]);
    }
    if u.evolution.previous_form is Some {
        assert(ls[head.len() + 1int] == evo[1]);
    }
    if has {
        assert(ls[head.len() as int] == evo[0]);
    }
}

/// Law: the unit page shows, for every registered unit, every one of its
/// next forms as a "    → Next: FORM" line, its previous form (if any) as a
/// "    ← Previous: FORM" line, and an "  Evolution:" heading when it has
/// either.
pub proof fn law_units_page_shows_evolutions(enc: Encyclopedia, i: int)
    requires
        0 <= i < enc.units@.len(),
    ensures
        forall|j: int|
            0 <= j < enc.units@[i].evolution.next_forms@.len() ==> units_page(enc).contains(
                "    → Next: "@ + (#[trigger] enc.units@[i].evolution.next_forms@[j])@,
            ),
        enc.units@[i].evolution.previous_form matches Some(p) ==> units_page(enc).contains(
            "    ← Previous: "@ + p@,
        ),
        (enc.units@[i].evolution.previous_form is Some || enc.units@[i].evolution.next_forms@.len()
            > 0) ==> units_page(enc).contains("  Evolution:"@),
{
    let u = enc.units@[i];
    let gs = enc.units@.map_values(|x: UnitEntry| unit_lines(x));
    let tail = concat_groups(gs);
    let page = units_page(enc);
    let front = page.subrange(0, page.len() - tail.len());
    assert(page == front + tail);
    assert(gs[i] == unit_lines(u));
    law_unit_block_shows_evolution(u);
    let ls = unit_lines(u);
    let nf = u.evolution.next_forms@.len() as int;
    let np = if u.evolution.previous_form is Some { 1int } else { 0int };
    let base = 3 + (if u.attacks@.len() > 0 { u.attacks@.len() + 1int } else { 0int });
    assert forall|j: int| 0 <= j < nf implies page.contains(
        "    → Next: "@ + (#[trigger] u.evolution.next_forms@[j])@,
    ) by {
        lemma_concat_groups_contains(gs, i, base + 1 + np + j);
        let n = choose|n: int| 0 <= n < tail.len() && tail[n] == gs[i][base + 1 + np + j];
        assert(page[front.len() + n] == tail[n]);
    }
    if u.evolution.previous_form is Some {
        lemma_concat_groups_contains(gs, i, base + 1);
        let n = choose|n: int| 0 <= n < tail.len() && tail[n] == gs[i][base + 1];
        assert(page[front.len() + n] == tail[n]);
    }
    if u.evolution.previous_form is Some || nf > 0 {
        lemma_concat_groups_contains(gs, i, base);
        let n = choose|n: int| 0 <= n < tail.len() && tail[n] == gs[i][base];
        assert(page[front.len() + n] == tail[n]);
    }
}

} // verus!
