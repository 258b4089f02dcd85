use questquest::display::{
    menu_action_caption, AttackOption, CombatConfirmation, CombatLogDisplay, CombatLogEntryType,
    EffectsDisplay, GuideDisplay, GuideEntry, MenuAction, MenuDisplay,
};

fn confirmation() -> CombatConfirmation {
    CombatConfirmation {
        attacker_name: "Knight".to_string(),
        attacker_hp: 25,
        attacker_max_hp: 30,
        attacker_attack: 9,
        attacker_defense: 4,
        attacker_attacks_per_round: 2,
        attacker_attacks: vec![
            AttackOption { name: "Slash".to_string(), damage: 8, range: 1 },
            AttackOption { name: "Bash".to_string(), damage: 5, range: 1 },
        ],
        defender_name: "Orc".to_string(),
        defender_hp: 12,
        defender_max_hp: 20,
        defender_attack: 7,
        defender_defense: 3,
        defender_attacks_per_round: 1,
        defender_attacks: vec![AttackOption { name: "Club".to_string(), damage: 6, range: 1 }],
    }
}

#[test]
fn test_guide_display() {
    let mut g = GuideDisplay::new();
    assert!(!g.active);
    assert!(g.current_entry.is_none());
    g.show(GuideEntry {
        title: "Tips".to_string(),
        description: vec!["line".to_string()],
        stats: vec![],
        tips: vec![],
    });
    assert!(g.active);
    assert_eq!(g.current_entry.as_ref().unwrap().title, "Tips");
    g.toggle();
    assert!(!g.active);
    g.toggle();
    assert!(g.active);
    g.close();
    assert!(!g.active);
    assert!(g.current_entry.is_some());
}

#[test]
fn test_menu_display_buttons() {
    let m = MenuDisplay::new();
    assert!(!m.active);
    let labels: Vec<&str> = m.buttons.iter().map(|b| b.label.as_str()).collect();
    assert_eq!(labels, vec!["Continue", "Settings", "Save", "Load", "Exit to Main Menu", "Exit Game"]);
    assert_eq!(m.buttons[4].action, MenuAction::ExitToMainMenu);
    assert!(m.buttons.iter().all(|b| b.enabled && !b.hovered));
    assert_eq!(menu_action_caption(MenuAction::Save), "Save Game");
    assert_eq!(menu_action_caption(MenuAction::ExitToMainMenu), "Main Menu");
}

#[test]
fn test_menu_hover_and_action() {
    let mut m = MenuDisplay::new();
    let hits = vec![false, false, true, false, false, false];
    m.update_hover(&hits);
    assert!(m.buttons[2].hovered);
    assert!(!m.buttons[0].hovered);
    assert_eq!(m.get_button_action(&hits), Some(MenuAction::Save));
    m.buttons[2].enabled = false;
    assert_eq!(m.get_button_action(&hits), None);
    let two = vec![false, true, false, true, false, false];
    assert_eq!(m.get_button_action(&two), Some(MenuAction::Settings));
    assert_eq!(m.get_button_action(&vec![false; 6]), None);
}

#[test]
fn test_effects_display() {
    let mut e = EffectsDisplay::new();
    assert!(!e.active);
    e.show();
    assert!(e.active);
    e.close();
    assert!(!e.active);
}

#[test]
fn test_combat_log_keeps_latest_ten() {
    let mut log = CombatLogDisplay::new();
    assert_eq!(log.max_entries, 10);
    assert!(!log.active);
    for i in 0..12 {
        log.add_entry(format!("hit {}", i), CombatLogEntryType::Damage);
    }
    assert!(log.active);
    assert_eq!(log.entries.len(), 10);
    assert_eq!(log.entries[0].message, "hit 2");
    assert_eq!(log.entries[9].message, "hit 11");
    log.clear();
    assert!(log.entries.is_empty());
}

#[test]
fn test_combat_confirmation_flow() {
    let mut log = CombatLogDisplay::new();
    assert_eq!(log.get_selected_attack(), Some(0));
    assert_eq!(log.ok_button.label, "OK");
    assert_eq!(log.cancel_button.label, "Cancel");
    assert_eq!(log.handle_click(true, false), None);
    log.show_combat_confirmation(confirmation());
    assert!(log.active);
    assert!(log.has_pending_combat());
    assert_eq!(log.attacker_attack_buttons.len(), 2);
    assert_eq!(log.attacker_attack_buttons[1].label, "Bash");
    assert_eq!(log.check_attack_click(&vec![false, true]), Some(1));
    assert_eq!(log.get_selected_attack(), Some(1));
    assert_eq!(log.check_attack_click(&vec![false, false]), None);
    assert_eq!(log.get_selected_attack(), Some(1));
    assert_eq!(log.handle_click(false, false), None);
    assert_eq!(log.handle_click(true, false), Some(true));
    assert!(log.has_pending_combat());
    assert_eq!(log.handle_click(false, true), Some(false));
    assert!(!log.has_pending_combat());
    assert!(!log.active);
    assert!(log.attacker_attack_buttons.is_empty());
    assert_eq!(log.get_selected_attack(), None);
}

#[test]
fn test_combat_dialog_text() {
    let c = confirmation();
    assert_eq!(
        c.attacker_lines(),
        vec!["ATTACKER", "Knight", "HP: 25/30", "ATK: 9", "DEF: 4", "2/round"]
    );
    assert_eq!(c.defender_lines(), vec!["DEFENDER", "Orc", "HP: 12/20", "ATK: 7", "DEF: 3", "1/round"]);
    assert_eq!(c.attacker_attacks[0].label(), "Slash (8x1)");
    let odd = AttackOption { name: "Odd".to_string(), damage: 0, range: -2 };
    assert_eq!(odd.label(), "Odd (0x-2)");
}

#[test]
fn test_combat_button_hover() {
    let mut log = CombatLogDisplay::new();
    log.update_button_hover(true, false);
    assert!(log.ok_button.hovered);
    assert!(!log.cancel_button.hovered);
}
