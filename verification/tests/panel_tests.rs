use questquest::hexagon::SpriteType;
use questquest::panels::{
    fit_item_name, line_style, LineStyle,
    recruit_entry_at_row, recruit_entry_line, EncyclopediaCategory, EncyclopediaPanel,
    SubmenuPanel, UiPanel, UnitDisplayInfo,
};

fn lines(n: usize) -> Vec<String> {
    (0..n).map(|i| format!("line {}", i)).collect()
}

#[test]
fn test_encyclopedia_scrolling() {
    let mut p = EncyclopediaPanel::new(10);
    assert_eq!(p.scroll_offset(), 0);
    assert_eq!(p.current_category(), EncyclopediaCategory::Units);
    p.update_content(lines(25));
    assert_eq!(p.max_scroll(), 15);
    assert_eq!(p.line_count(), 25);
    p.scroll_down(4);
    assert_eq!(p.scroll_offset(), 4);
    p.scroll_down(100);
    assert_eq!(p.scroll_offset(), 15);
    p.scroll_up(3);
    assert_eq!(p.scroll_offset(), 12);
    p.scroll_up(50);
    assert_eq!(p.scroll_offset(), 0);
    p.scroll_down(20);
    // shorter content pulls the offset back into range
    p.update_content(lines(12));
    assert_eq!(p.max_scroll(), 2);
    assert_eq!(p.scroll_offset(), 2);
    p.update_content(lines(3));
    assert_eq!(p.max_scroll(), 0);
    assert_eq!(p.scroll_offset(), 0);
}

#[test]
fn test_encyclopedia_category_resets_scroll() {
    let mut p = EncyclopediaPanel::new(5);
    p.update_content(lines(20));
    p.scroll_down(7);
    p.set_category(EncyclopediaCategory::Units);
    assert_eq!(p.scroll_offset(), 7);
    p.set_category(EncyclopediaCategory::Terrain);
    assert_eq!(p.scroll_offset(), 0);
    assert_eq!(p.current_category(), EncyclopediaCategory::Terrain);
}

#[test]
fn test_encyclopedia_visible_lines() {
    let mut p = EncyclopediaPanel::new(5);
    p.update_content(lines(8));
    p.scroll_down(2);
    assert_eq!(p.visible_lines(4), vec!["line 2", "line 3", "line 4", "line 5"]);
    assert_eq!(p.visible_lines(10), vec!["line 2", "line 3", "line 4", "line 5", "line 6", "line 7"]);
}

fn info(experience: i32) -> UnitDisplayInfo {
    UnitDisplayInfo {
        name: "Aria".to_string(),
        race: "Elf".to_string(),
        class: "Archer".to_string(),
        level: 2,
        experience,
        health: 17,
        max_health: 25,
        terrain: "Forest".to_string(),
        position_q: 1,
        position_r: -2,
        moves_left: 3,
        max_moves: 5,
        sprite_type: SpriteType::Unit,
    }
}

#[test]
fn test_unit_info_texts() {
    let i = info(2345);
    assert_eq!(i.race_class_line(), "Elf Archer");
    assert_eq!(i.health_line(), "17/25");
    assert_eq!(i.experience_progress(), 345);
    assert_eq!(i.experience_line(), "345/1000");
    assert_eq!(info(-1234).experience_line(), "-234/1000");
    assert_eq!(info(0).experience_line(), "0/1000");
    assert_eq!(info(i32::MIN).experience_progress(), i32::MIN % 1000);
}

#[test]
fn test_ui_panel_state() {
    let mut p = UiPanel::new();
    assert!(p.unit_info().is_none());
    assert!(p.pickup_prompt().is_none());
    p.set_unit_info(info(10));
    p.set_pickup_prompt("Iron Sword".to_string());
    assert_eq!(p.unit_info().as_ref().unwrap().name, "Aria");
    assert_eq!(p.pickup_prompt().as_deref(), Some("Iron Sword"));
    p.clear_pickup_prompt();
    assert!(p.pickup_prompt().is_none());
    assert!(p.unit_info().is_some());
    p.clear_unit_info();
    assert!(p.unit_info().is_none());
}

#[test]
fn pickup_buttons_answer_only_while_offered() {
    let mut p = UiPanel::new();
    assert!(!p.check_yes_button_click(true));
    assert!(!p.check_no_button_click(true));
    p.set_pickup_prompt("Iron Sword".to_string());
    assert!(p.check_yes_button_click(true));
    assert!(!p.check_yes_button_click(false));
    assert!(p.check_no_button_click(true));
    p.clear_pickup_prompt();
    assert!(!p.check_no_button_click(true));
}

#[test]
fn test_submenu_panel() {
    let mut s = SubmenuPanel::new(vec!["Recruit".to_string(), "Wait".to_string()]);
    assert_eq!(s.items().len(), 2);
    assert!(!s.items()[0].selected);
    s.set_selected(1, true);
    assert!(s.items()[1].selected);
    assert_eq!(s.items()[1].label, "Wait");
    s.set_selected(5, true);
    assert_eq!(s.items().len(), 2);
    assert_eq!(s.item_at_row(1), Some(1));
    assert_eq!(s.item_at_row(2), None);
    s.set_items(vec!["Only".to_string()]);
    assert_eq!(s.items().len(), 1);
    assert!(!s.items()[0].selected);
}

#[test]
fn test_recruitment_entries() {
    assert_eq!(recruit_entry_line(0, "Footman"), "1. Footman");
    assert_eq!(recruit_entry_line(9, "Archer"), "10. Archer");
    assert_eq!(recruit_entry_at_row(2, 3), Some(2));
    assert_eq!(recruit_entry_at_row(3, 3), None);
}

#[test]
fn test_fit_item_name() {
    assert_eq!(fit_item_name("Iron Sword", 20), "Iron Sword");
    assert_eq!(fit_item_name("Iron Sword", 6), "Iron …");
    assert_eq!(fit_item_name("Iron Sword", 3), "Iron Sword");
    assert_eq!(fit_item_name("Épée", 4), "Épée");
    assert_eq!(fit_item_name("Épée longue", 5), "Épée…");
}

#[test]
fn test_encyclopedia_tabs_styles_and_indicator() {
    assert_eq!(EncyclopediaCategory::Units.tab_label(), "1: Units");
    assert_eq!(EncyclopediaCategory::Terrain.tab_label(), "2: Terrain");
    assert_eq!(EncyclopediaCategory::Mechanics.tab_label(), "3: Mechanics");
    assert_eq!(line_style("╔════ Combat ════╗"), LineStyle::Border);
    assert_eq!(line_style("═══════"), LineStyle::Border);
    assert_eq!(line_style("• Slash - Swords"), LineStyle::ListItem);
    assert_eq!(line_style("  Stats: • HP"), LineStyle::ListItem);
    assert_eq!(line_style("plain text"), LineStyle::Plain);
    assert_eq!(line_style(""), LineStyle::Plain);
    let mut p = EncyclopediaPanel::new(10);
    p.update_content(lines(5));
    assert_eq!(p.scroll_indicator(), None);
    p.update_content(lines(25));
    p.scroll_down(3);
    assert_eq!(p.scroll_indicator(), Some("↑/↓ to scroll | Line 4/25".to_string()));
}
