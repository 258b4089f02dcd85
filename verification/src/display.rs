//! State of the renderer's overlays: the guide window, the in-game menu, the
//! effects layer and the combat log with its confirmation dialog.
//!
//! Screen geometry (positions, sizes, the test whether the mouse is over a
//! button) is kept by the drawing code; the operations here receive the
//! outcome of those tests as one flag per button.
use vstd::prelude::*;
use crate::text::{decimal, decimal_text, nat_digits, nat_text, string_texts};

verus! {

/// A guide entry shown in the guide window.
#[derive(Clone, Debug)]
pub struct GuideEntry {
    pub title: String,
    /// Lines of descriptive text.
    pub description: Vec<String>,
    /// Key/value statistics.
    pub stats: Vec<(String, String)>,
    pub tips: Vec<String>,
}

/// Guide window state: whether it is shown, and the entry it shows.
pub struct GuideDisplay {
    pub active: bool,
    pub current_entry: Option<GuideEntry>,
}

impl GuideDisplay {
    /// Hidden, with no entry.
    pub fn new() -> (g: GuideDisplay)
        ensures
            !g.active,
            g.current_entry is None,
    {
        GuideDisplay { active: false, current_entry: None }
    }

    /// Show `entry`.
    pub fn show(&mut self, entry: GuideEntry)
        ensures
            final(self).active,
            final(self).current_entry == Some(entry),
    {
        self.current_entry = Some(entry);
        self.active = true;
    }

    /// Hide the window; the entry is kept.
    pub fn close(&mut self)
        ensures
            !final(self).active,
            final(self).current_entry == old(self).current_entry,
    {
        self.active = false;
    }

    /// Flip visibility; the entry is kept.
    pub fn toggle(&mut self)
        ensures
            final(self).active == !old(self).active,
            final(self).current_entry == old(self).current_entry,
    {
        self.active = !self.active;
    }
}

impl Default for GuideDisplay {
    fn default() -> (g: GuideDisplay)
        ensures
            !g.active,
            g.current_entry is None,
    {
        GuideDisplay::new()
    }
}

/// What a menu button does.
#[derive(Clone, Copy, Debug, PartialEq, Eq, Structural)]
pub enum MenuAction {
    Continue,
    Settings,
    Save,
    Load,
    ExitToMainMenu,
    ExitGame,
}

/// Caption drawn on the button of an action.
pub open spec fn menu_caption(action: MenuAction) -> Seq<char> {
    match action {
        MenuAction::Continue => "Continue"@,
        MenuAction::Settings => "Settings"@,
        MenuAction::Save => "Save Game"@,
        MenuAction::Load => "Load Game"@,
        MenuAction::ExitToMainMenu => "Main Menu"@,
        MenuAction::ExitGame => "Exit Game"@,
    }
}

/// The caption drawn on the button of `action`.
pub fn menu_action_caption(action: MenuAction) -> (s: &'static str)
    ensures
        s@ == menu_caption(action),
{
    match action {
        MenuAction::Continue => "Continue",
        MenuAction::Settings => "Settings",
        MenuAction::Save => "Save Game",
        MenuAction::Load => "Load Game",
        MenuAction::ExitToMainMenu => "Main Menu",
        MenuAction::ExitGame => "Exit Game",
    }
}

/// A menu button: its label, action, and hover and enabled flags.
#[derive(Clone, Debug)]
pub struct MenuButton {
    pub label: String,
    pub action: MenuAction,
    pub hovered: bool,
    pub enabled: bool,
}

impl MenuButton {
    /// An enabled, not hovered button.
    pub fn new(label: &str, action: MenuAction) -> (b: MenuButton)
        ensures
            b.label@ == label@,
            b.action == action,
            !b.hovered,
            b.enabled,
    {
        MenuButton { label: label.to_string(), action, hovered: false, enabled: true }
    }
}

/// Label and action of the `i`-th button of a new menu.
pub open spec fn default_menu_button(i: int) -> (Seq<char>, MenuAction) {
    if i == 0 {
        ("Continue"@, MenuAction::Continue)
    } else if i == 1 {
        ("Settings"@, MenuAction::Settings)
    } else if i == 2 {
        ("Save"@, MenuAction::Save)
    } else if i == 3 {
        ("Load"@, MenuAction::Load)
    } else if i == 4 {
        ("Exit to Main Menu"@, MenuAction::ExitToMainMenu)
    } else {
        ("Exit Game"@, MenuAction::ExitGame)
    }
}

/// Number of buttons of a new menu.
pub const MENU_BUTTON_COUNT: usize = 6;

/// In-game menu state: visibility and the buttons in display order.
pub struct MenuDisplay {
    pub active: bool,
    pub buttons: Vec<MenuButton>,
}

/// `i` is the first button that is enabled and under the pointer.
pub open spec fn first_enabled_hit(buttons: Seq<MenuButton>, hits: Seq<bool>, i: int) -> bool {
    &&& 0 <= i < buttons.len()
    &&& buttons[i].enabled && hits[i]
    &&& forall|j: int| 0 <= j < i ==> !(#[trigger] buttons[j].enabled && hits[j])
}

impl MenuDisplay {
    /// Hidden menu with its six buttons, enabled and not hovered.
    pub fn new() -> (m: MenuDisplay)
        ensures
            !m.active,
            m.buttons@.len() == MENU_BUTTON_COUNT,
            forall|i: int|
                0 <= i < MENU_BUTTON_COUNT ==> {
                    &&& (#[trigger] m.buttons@[i]).label@ == default_menu_button(i).0
                    &&& m.buttons@[i].action == default_menu_button(i).1
                    &&& !m.buttons@[i].hovered
                    &&& m.buttons@[i].enabled
                },
    {
        let buttons = vec![
            MenuButton::new("Continue", MenuAction::Continue),
            MenuButton::new("Settings", MenuAction::Settings),
            MenuButton::new("Save", MenuAction::Save),
            MenuButton::new("Load", MenuAction::Load),
            MenuButton::new("Exit to Main Menu", MenuAction::ExitToMainMenu),
            MenuButton::new("Exit Game", MenuAction::ExitGame),
        ];
        MenuDisplay { active: false, buttons }
    }

    pub fn show(&mut self)
        ensures
            final(self).active,
            final(self).buttons@ == old(self).buttons@,
    {
        self.active = true;
    }

    pub fn close(&mut self)
        ensures
            !final(self).active,
            final(self).buttons@ == old(self).buttons@,
    {
        self.active = false;
    }

    pub fn toggle(&mut self)
        ensures
            final(self).active == !old(self).active,
            final(self).buttons@ == old(self).buttons@,
    {
        self.active = !self.active;
    }

    /// Mark each button hovered exactly when the pointer is over it;
    /// `hits[i]` tells whether the pointer is over button `i`.
    pub fn update_hover(&mut self, hits: &Vec<bool>)
        requires
            hits@.len() == old(self).buttons@.len(),
        ensures
            final(self).active == old(self).active,
            final(self).buttons@.len() == old(self).buttons@.len(),
            forall|i: int|
                0 <= i < hits@.len() ==> {
                    &&& (#[trigger] final(self).buttons@[i]).hovered == hits@[i]
                    &&& final(self).buttons@[i].label == old(self).buttons@[i].label
                    &&& final(self).buttons@[i].action == old(self).buttons@[i].action
                    &&& final(self).buttons@[i].enabled == old(self).buttons@[i].enabled
                },
    {
        let n = self.buttons.len();
        let mut i: usize = 0;
        while i < n
            invariant
                n == hits@.len(),
                n == old(self).buttons@.len(),
                self.buttons@.len() == n,
                self.active == old(self).active,
                i <= n,
                forall|k: int|
                    0 <= k < n ==> {
                        &&& (#[trigger] self.buttons@[k]).label == old(self).buttons@[k].label
                        &&& self.buttons@[k].action == old(self).buttons@[k].action
                        &&& self.buttons@[k].enabled == old(self).buttons@[k].enabled
                        &&& (k < i ==> self.buttons@[k].hovered == hits@[k])
                    },
            decreases n - i,
        {
            let b = MenuButton {
                label: self.buttons[i].label.clone(),
                action: self.buttons[i].action,
                hovered: hits[i],
                enabled: self.buttons[i].enabled,
            };
            self.buttons[i] = b;
            i += 1;
        }
    }

    /// The action of the first enabled button under the pointer, if any;
    /// `hits[i]` tells whether the pointer is over button `i`.
    pub fn get_button_action(&self, hits: &Vec<bool>) -> (r: Option<MenuAction>)
        requires
            hits@.len() == self.buttons@.len(),
        ensures
            match r {
                Some(a) => exists|i: int|
                    first_enabled_hit(self.buttons@, hits@, i) && self.buttons@[i].action == a,
                None => forall|i: int|
                    0 <= i < self.buttons@.len() ==> !(#[trigger] self.buttons@[i].enabled
                        && hits@[i]),
            },
    {
        let mut i: usize = 0;
        while i < self.buttons.len()
            invariant
                hits@.len() == self.buttons@.len(),
                i <= self.buttons@.len(),
                forall|j: int| 0 <= j < i ==> !(#[trigger] self.buttons@[j].enabled && hits@[j]),
            decreases self.buttons@.len() - i,
        {
            if self.buttons[i].enabled && hits[i] {
                assert(first_enabled_hit(self.buttons@, hits@, i as int));
                return Some(self.buttons[i].action);
            }
            i += 1;
        }
        None
    }
}

impl Default for MenuDisplay {
    fn default() -> (m: MenuDisplay)
        ensures
            !m.active,
            m.buttons@.len() == MENU_BUTTON_COUNT,
            forall|i: int|
                0 <= i < MENU_BUTTON_COUNT ==> {
                    &&& (#[trigger] m.buttons@[i]).label@ == default_menu_button(i).0
                    &&& m.buttons@[i].action == default_menu_button(i).1
                    &&& !m.buttons@[i].hovered
                    &&& m.buttons@[i].enabled
                },
    {
        MenuDisplay::new()
    }
}

/// Visual effects layer; only its visibility for now.
pub struct EffectsDisplay {
    pub active: bool,
}

impl EffectsDisplay {
    pub fn new() -> (e: EffectsDisplay)
        ensures
            !e.active,
    {
        EffectsDisplay { active: false }
    }

    pub fn show(&mut self)
        ensures
            final(self).active,
    {
        self.active = true;
    }

    pub fn close(&mut self)
        ensures
            !final(self).active,
    {
        self.active = false;
    }
}

impl Default for EffectsDisplay {
    fn default() -> (e: EffectsDisplay)
        ensures
            !e.active,
    {
        EffectsDisplay::new()
    }
}


/// Kind of a combat log entry.
#[derive(Clone, Copy, Debug, PartialEq, Eq, Structural)]
pub enum CombatLogEntryType {
    Attack,
    Damage,
    Heal,
    Miss,
    Death,
    Info,
}

/// A line of the combat log.
#[derive(Clone, Debug)]
pub struct CombatLogEntry {
    pub message: String,
    pub entry_type: CombatLogEntryType,
}

/// An attack a unit can choose in the combat dialog.
#[derive(Clone, Debug)]
pub struct AttackOption {
    pub name: String,
    pub damage: u32,
    pub range: i32,
}

/// What the combat confirmation dialog shows of the two sides.
#[derive(Clone, Debug)]
pub struct CombatConfirmation {
    pub attacker_name: String,
    pub attacker_hp: u32,
    pub attacker_max_hp: u32,
    pub attacker_attack: u32,
    pub attacker_defense: u32,
    pub attacker_attacks_per_round: u32,
    pub attacker_attacks: Vec<AttackOption>,
    pub defender_name: String,
    pub defender_hp: u32,
    pub defender_max_hp: u32,
    pub defender_attack: u32,
    pub defender_defense: u32,
    pub defender_attacks_per_round: u32,
    pub defender_attacks: Vec<AttackOption>,
}

/// A button of the combat dialog: its label and hover flag.
#[derive(Clone, Debug)]
pub struct CombatButton {
    pub label: String,
    pub hovered: bool,
}

impl CombatButton {
    /// A button that is not hovered.
    pub fn new(label: &str) -> (b: CombatButton)
        ensures
            b.label@ == label@,
            !b.hovered,
    {
        CombatButton { label: label.to_string(), hovered: false }
    }
}

/// Number of entries a new combat log keeps.
pub const DEFAULT_MAX_LOG_ENTRIES: usize = 10;

/// Combat log and confirmation dialog state.
pub struct CombatLogDisplay {
    pub active: bool,
    pub entries: Vec<CombatLogEntry>,
    /// The log keeps at most this many of the latest entries.
    pub max_entries: usize,
    pub auto_hide: bool,
    /// The combat waiting for confirmation, if any.
    pub pending_combat: Option<CombatConfirmation>,
    pub ok_button: CombatButton,
    pub cancel_button: CombatButton,
    /// Index of the chosen attacker attack.
    pub selected_attack_index: Option<usize>,
    /// One button per attack of the attacker, in order.
    pub attacker_attack_buttons: Vec<CombatButton>,
}

/// The log after adding `entry`: appended, and the oldest entry dropped when
/// the log then holds more than `max` entries.
pub open spec fn log_after_add(
    entries: Seq<CombatLogEntry>,
    max: nat,
    entry: CombatLogEntry,
) -> Seq<CombatLogEntry> {
    let grown = entries.push(entry);
    if grown.len() > max {
        grown.subrange(1, grown.len() as int)
    } else {
        grown
    }
}

/// The attack buttons of a confirmation: one per attacker attack, labelled
/// with its name, not hovered.
pub open spec fn attack_buttons_match(
    buttons: Seq<CombatButton>,
    attacks: Seq<AttackOption>,
) -> bool {
    &&& buttons.len() == attacks.len()
    &&& forall|i: int|
        0 <= i < buttons.len() ==> (#[trigger] buttons[i]).label == attacks[i].name
            && !buttons[i].hovered
}

impl CombatLogDisplay {
    /// Hidden, empty log keeping ten entries, no pending combat, first attack
    /// selected, "OK" and "Cancel" buttons.
    pub fn new() -> (d: CombatLogDisplay)
        ensures
            !d.active,
            d.entries@.len() == 0,
            d.max_entries == DEFAULT_MAX_LOG_ENTRIES,
            !d.auto_hide,
            d.pending_combat is None,
            d.ok_button.label@ == "OK"@,
            !d.ok_button.hovered,
            d.cancel_button.label@ == "Cancel"@,
            !d.cancel_button.hovered,
            d.selected_attack_index == Some(0usize),
            d.attacker_attack_buttons@.len() == 0,
    {
        CombatLogDisplay {
            active: false,
            entries: Vec::new(),
            max_entries: DEFAULT_MAX_LOG_ENTRIES,
            auto_hide: false,
            pending_combat: None,
            ok_button: CombatButton::new("OK"),
            cancel_button: CombatButton::new("Cancel"),
            selected_attack_index: Some(0),
            attacker_attack_buttons: Vec::new(),
        }
    }

    pub fn show(&mut self)
        ensures
            *final(self) == (CombatLogDisplay { active: true, ..*old(self) }),
    {
        self.active = true;
    }

    pub fn close(&mut self)
        ensures
            *final(self) == (CombatLogDisplay { active: false, ..*old(self) }),
    {
        self.active = false;
    }

    pub fn toggle(&mut self)
        ensures
            *final(self) == (CombatLogDisplay { active: !old(self).active, ..*old(self) }),
    {
        self.active = !self.active;
    }

    /// Open the dialog for `confirmation`: one attack button per attacker
    /// attack, the first attack selected.
    pub fn show_combat_confirmation(&mut self, confirmation: CombatConfirmation)
        ensures
            final(self).active,
            final(self).pending_combat == Some(confirmation),
            final(self).selected_attack_index == Some(0usize),
            attack_buttons_match(
                final(self).attacker_attack_buttons@,
                confirmation.attacker_attacks@,
            ),
            final(self).entries == old(self).entries,
            final(self).max_entries == old(self).max_entries,
            final(self).auto_hide == old(self).auto_hide,
            final(self).ok_button == old(self).ok_button,
            final(self).cancel_button == old(self).cancel_button,
    {
        let mut buttons: Vec<CombatButton> = Vec::new();
        let n = confirmation.attacker_attacks.len();
        let mut i: usize = 0;
        while i < n
            invariant
                n == confirmation.attacker_attacks@.len(),
                i <= n,
                buttons@.len() == i,
                forall|k: int|
                    0 <= k < i ==> (#[trigger] buttons@[k]).label
                        == confirmation.attacker_attacks@[k].name && !buttons@[k].hovered,
            decreases n - i,
        {
            let label = confirmation.attacker_attacks[i].name.clone();
            buttons.push(CombatButton { label, hovered: false });
            i += 1;
        }
        self.attacker_attack_buttons = buttons;
        self.selected_attack_index = Some(0);
        self.pending_combat = Some(confirmation);
        self.active = true;
    }

    /// Close the dialog: no pending combat, no attack buttons, no selection.
    pub fn clear_combat_confirmation(&mut self)
        ensures
            *final(self) == (CombatLogDisplay {
                pending_combat: None,
                active: false,
                attacker_attack_buttons: final(self).attacker_attack_buttons,
                selected_attack_index: None,
                ..*old(self)
            }),
            final(self).attacker_attack_buttons@.len() == 0,
    {
        self.pending_combat = None;
        self.active = false;
        self.attacker_attack_buttons.clear();
        self.selected_attack_index = None;
    }

    /// Select the first attack button under the pointer and return its
    /// index; `hits[i]` tells whether the pointer is over attack button `i`.
    pub fn check_attack_click(&mut self, hits: &Vec<bool>) -> (r: Option<usize>)
        requires
            hits@.len() == old(self).attacker_attack_buttons@.len(),
        ensures
            match r {
                Some(i) => {
                    &&& i < hits@.len()
                    &&& hits@[i as int]
                    &&& forall|j: int| 0 <= j < i ==> !#[trigger] hits@[j]
                    &&& *final(self) == (CombatLogDisplay {
                        selected_attack_index: Some(i),
                        ..*old(self)
                    })
                },
                None => {
                    &&& forall|j: int| 0 <= j < hits@.len() ==> !#[trigger] hits@[j]
                    &&& *final(self) == *old(self)
                },
            },
    {
        let n = hits.len();
        let mut i: usize = 0;
        while i < n
            invariant
                n == hits@.len(),
                i <= n,
                *self == *old(self),
                forall|j: int| 0 <= j < i ==> !#[trigger] hits@[j],
            decreases n - i,
        {
            if hits[i] {
                self.selected_attack_index = Some(i);
                return Some(i);
            }
            i += 1;
        }
        None
    }

    /// Index of the chosen attacker attack.
    pub fn get_selected_attack(&self) -> (r: Option<usize>)
        ensures
            r == self.selected_attack_index,
    {
        self.selected_attack_index
    }

    /// Whether a combat waits for confirmation.
    pub fn has_pending_combat(&self) -> (r: bool)
        ensures
            r == self.pending_combat is Some,
    {
        self.pending_combat.is_some()
    }

    /// Set the hover flags of the two dialog buttons.
    pub fn update_button_hover(&mut self, ok_hit: bool, cancel_hit: bool)
        ensures
            *final(self) == (CombatLogDisplay {
                ok_button: CombatButton { hovered: ok_hit, ..old(self).ok_button },
                cancel_button: CombatButton { hovered: cancel_hit, ..old(self).cancel_button },
                ..*old(self)
            }),
    {
        self.ok_button.hovered = ok_hit;
        self.cancel_button.hovered = cancel_hit;
    }

    /// React to a click on the dialog, given whether it hit the OK and the
    /// Cancel button: with no pending combat nothing happens; OK confirms
    /// (`Some(true)`); Cancel closes the dialog (`Some(false)`).
    pub fn handle_click(&mut self, ok_hit: bool, cancel_hit: bool) -> (r: Option<bool>)
        ensures
            old(self).pending_combat is None ==> r is None && *final(self) == *old(self),
            old(self).pending_combat is Some && ok_hit ==> r == Some(true)
                && *final(self) == *old(self),
            old(self).pending_combat is Some && !ok_hit && cancel_hit ==> {
                &&& r == Some(false)
                &&& *final(self) == (CombatLogDisplay {
                    pending_combat: None,
                    active: false,
                    attacker_attack_buttons: final(self).attacker_attack_buttons,
                    selected_attack_index: None,
                    ..*old(self)
                })
                &&& final(self).attacker_attack_buttons@.len() == 0
            },
            old(self).pending_combat is Some && !ok_hit && !cancel_hit ==> r is None
                && *final(self) == *old(self),
    {
        if !self.has_pending_combat() {
            return None;
        }
        if ok_hit {
            return Some(true);
        }
        if cancel_hit {
            self.clear_combat_confirmation();
            return Some(false);
        }
        None
    }

    /// Append a log line, dropping the oldest one beyond the capacity, and
    /// show the log.
    pub fn add_entry(&mut self, message: String, entry_type: CombatLogEntryType)
        ensures
            final(self).entries@ == log_after_add(
                old(self).entries@,
                old(self).max_entries as nat,
                CombatLogEntry { message, entry_type },
            ),
            *final(self) == (CombatLogDisplay {
                entries: final(self).entries,
                active: true,
                ..*old(self)
            }),
    {
        let entry = CombatLogEntry { message, entry_type };
        self.entries.push(entry);
        if self.entries.len() > self.max_entries {
            self.entries.remove(0);
            assert(self.entries@ =~= log_after_add(
                old(self).entries@,
                old(self).max_entries as nat,
                CombatLogEntry { message, entry_type },
            ));
        }
        if !self.active {
            self.active = true;
        }
    }

    /// Remove all log lines.
    pub fn clear(&mut self)
        ensures
            final(self).entries@.len() == 0,
            *final(self) == (CombatLogDisplay { entries: final(self).entries, ..*old(self) }),
    {
        self.entries.clear();
    }
}

impl Default for CombatLogDisplay {
    fn default() -> (d: CombatLogDisplay)
        ensures
            !d.active,
            d.entries@.len() == 0,
            d.max_entries == DEFAULT_MAX_LOG_ENTRIES,
            !d.auto_hide,
            d.pending_combat is None,
            d.ok_button.label@ == "OK"@,
            !d.ok_button.hovered,
            d.cancel_button.label@ == "Cancel"@,
            !d.cancel_button.hovered,
            d.selected_attack_index == Some(0usize),
            d.attacker_attack_buttons@.len() == 0,
    {
        CombatLogDisplay::new()
    }
}

/// Law: a log holding at most `max` entries still does after an entry is
/// added, and (when it keeps any) its newest entry is the one added, preceded
/// by the entries it held, oldest dropped first.
pub proof fn law_combat_log_keeps_latest(
    entries: Seq<CombatLogEntry>,
    max: nat,
    entry: CombatLogEntry,
)
    requires
        entries.len() <= max,
    ensures
        log_after_add(entries, max, entry).len() <= max || max == 0,
        max > 0 ==> log_after_add(entries, max, entry).last() == entry,
        max > 0 ==> log_after_add(entries, max, entry).drop_last()
            =~= entries.subrange(entries.len() - (log_after_add(entries, max, entry).len() - 1), entries.len() as int),
{
}


/// Text of an attack option in the combat dialog: its name, then its damage
/// and range as "(DAMAGExRANGE)".
pub open spec fn attack_option_text(a: AttackOption) -> Seq<char> {
    a.name@ + " ("@ + nat_digits(a.damage as nat) + "x"@ + decimal(a.range as int) + ")"@
}

/// Lines of one side's panel in the combat dialog: role, name, hit points,
/// attack, defence and attacks per round.
pub open spec fn combat_side_lines(
    role: Seq<char>,
    name: Seq<char>,
    hp: u32,
    max_hp: u32,
    attack: u32,
    defense: u32,
    per_round: u32,
) -> Seq<Seq<char>> {
    seq![
        role,
        name,
        "HP: "@ + nat_digits(hp as nat) + "/"@ + nat_digits(max_hp as nat),
        "ATK: "@ + nat_digits(attack as nat),
        "DEF: "@ + nat_digits(defense as nat),
        nat_digits(per_round as nat) + "/round"@,
    ]
}

impl AttackOption {
    /// The text shown for this attack in the combat dialog.
    pub fn label(&self) -> (s: String)
        ensures
            s@ == attack_option_text(*self),
    {
        let mut s = self.name.clone();
        s.append(" (");
        let damage = nat_text(self.damage as u64);
        s.append(damage.as_str());
        s.append("x");
        let range = decimal_text(self.range as i64);
        s.append(range.as_str());
        s.append(")");
        s
    }
}

/// The combat confirmation panel: the text it lays out (its drawing is done
/// by the renderer).
pub struct CombatPanel;

impl CombatPanel {
    /// The panel lines of one side of the combat dialog.
    pub fn side_lines(
        role: &str,
        name: &String,
        hp: u32,
        max_hp: u32,
        attack: u32,
        defense: u32,
        per_round: u32,
    ) -> (v: Vec<String>)
        ensures
            string_texts(v@) == combat_side_lines(
                role@,
                name@,
                hp,
                max_hp,
                attack,
                defense,
                per_round,
            ),
    {
        let mut hp_line = "HP: ".to_string();
        let hp_digits = nat_text(hp as u64);
        hp_line.append(hp_digits.as_str());
        hp_line.append("/");
        let max_digits = nat_text(max_hp as u64);
        hp_line.append(max_digits.as_str());
        let mut atk_line = "ATK: ".to_string();
        let atk_digits = nat_text(attack as u64);
        atk_line.append(atk_digits.as_str());
        let mut def_line = "DEF: ".to_string();
        let def_digits = nat_text(defense as u64);
        def_line.append(def_digits.as_str());
        let mut round_line = nat_text(per_round as u64);
        round_line.append("/round");
        let v = vec![role.to_string(), name.clone(), hp_line, atk_line, def_line, round_line];
        assert(string_texts(v@) =~= combat_side_lines(
            role@,
            name@,
            hp,
            max_hp,
            attack,
            defense,
            per_round,
        ));
        v
    }
}

impl CombatConfirmation {
    /// Lines of the attacker's panel.
    pub fn attacker_lines(&self) -> (v: Vec<String>)
        ensures
            string_texts(v@) == combat_side_lines(
                "ATTACKER"@,
                self.attacker_name@,
                self.attacker_hp,
                self.attacker_max_hp,
                self.attacker_attack,
                self.attacker_defense,
                self.attacker_attacks_per_round,
            ),
    {
        CombatPanel::side_lines(
            "ATTACKER",
            &self.attacker_name,
            self.attacker_hp,
            self.attacker_max_hp,
            self.attacker_attack,
            self.attacker_defense,
            self.attacker_attacks_per_round,
        )
    }

    /// Lines of the defender's panel.
    pub fn defender_lines(&self) -> (v: Vec<String>)
        ensures
            string_texts(v@) == combat_side_lines(
                "DEFENDER"@,
                self.defender_name@,
                self.defender_hp,
                self.defender_max_hp,
                self.defender_attack,
                self.defender_defense,
                self.defender_attacks_per_round,
            ),
    {
        CombatPanel::side_lines(
            "DEFENDER",
            &self.defender_name,
            self.defender_hp,
            self.defender_max_hp,
            self.defender_attack,
            self.defender_defense,
            self.defender_attacks_per_round,
        )
    }
}

} // verus!
