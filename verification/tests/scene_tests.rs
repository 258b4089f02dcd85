use questquest::main_menu::{MainMenu, MainMenuCommand, MenuButtonAction};
use questquest::scene_manager::{SceneManager, SceneType};

#[test]
fn test_scene_manager_starts_in_main_menu() {
    let m = SceneManager::new();
    assert_eq!(m.current_scene(), SceneType::MainMenu);
    let d = SceneManager::default();
    assert_eq!(d.current_scene(), SceneType::MainMenu);
}

#[test]
fn test_transition_happens_when_processed() {
    let mut m = SceneManager::new();
    m.transition_to(SceneType::Game);
    assert_eq!(m.current_scene(), SceneType::MainMenu);
    assert!(m.process_transition());
    assert_eq!(m.current_scene(), SceneType::Game);
    assert!(!m.process_transition());
    assert_eq!(m.current_scene(), SceneType::Game);
}

#[test]
fn test_latest_request_wins() {
    let mut m = SceneManager::new();
    m.transition_to(SceneType::Settings);
    m.transition_to(SceneType::SavedGames);
    assert!(m.process_transition());
    assert_eq!(m.current_scene(), SceneType::SavedGames);
}

#[test]
fn test_main_menu_buttons() {
    let menu = MainMenu::new();
    let b = menu.buttons();
    assert_eq!(b.len(), 4);
    assert_eq!(b[0].label, "Scenarios");
    assert_eq!(b[1].label, "Saved Games");
    assert_eq!(b[2].label, "Settings");
    assert_eq!(b[3].label, "Exit");
    assert_eq!(b[3].action, MenuButtonAction::Exit);
}

#[test]
fn test_main_menu_clicks() {
    let menu = MainMenu::new();
    let on = |i: usize| (0..4).map(|j| j == i).collect::<Vec<bool>>();
    assert_eq!(menu.handle_click(&on(0), true), MainMenuCommand::SwitchTo(SceneType::Game));
    assert_eq!(menu.handle_click(&on(1), true), MainMenuCommand::SwitchTo(SceneType::SavedGames));
    assert_eq!(menu.handle_click(&on(2), true), MainMenuCommand::SwitchTo(SceneType::Settings));
    assert_eq!(menu.handle_click(&on(3), true), MainMenuCommand::Quit);
    assert_eq!(menu.handle_click(&on(0), false), MainMenuCommand::Stay);
    assert_eq!(menu.handle_click(&vec![false; 4], true), MainMenuCommand::Stay);
    assert_eq!(menu.check_button_click(&vec![false, true, true, false]), Some(MenuButtonAction::SavedGames));
}

#[test]
fn test_main_menu_keys() {
    let menu = MainMenu::new();
    assert_eq!(menu.handle_key(true), MainMenuCommand::Quit);
    assert_eq!(menu.handle_key(false), MainMenuCommand::Stay);
}
