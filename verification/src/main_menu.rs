//! The main menu: its buttons, and what a click or a key press there leads
//! to.
use vstd::prelude::*;
use crate::scene_manager::SceneType;

verus! {

/// Actions of the main menu buttons.
#[derive(Debug, Clone, Copy, PartialEq, Eq, Structural)]
pub enum MenuButtonAction {
    /// Start the game scenario.
    Scenarios,
    /// Show the saved games screen.
    SavedGames,
    /// Open the settings menu.
    Settings,
    /// Leave the application.
    Exit,
}

/// What the application does after an event on the main menu.
#[derive(Debug, Clone, Copy, PartialEq, Eq, Structural)]
pub enum MainMenuCommand {
    /// Nothing changes.
    Stay,
    /// Switch to another scene.
    SwitchTo(SceneType),
    /// Quit the application.
    Quit,
}

/// A button of the main menu.
#[derive(Debug, Clone)]
pub struct MainMenuButton {
    pub label: String,
    pub action: MenuButtonAction,
}

/// Label and action of the `i`-th main menu button, top first.
pub open spec fn main_menu_button(i: int) -> (Seq<char>, MenuButtonAction) {
    if i == 0 {
        ("Scenarios"@, MenuButtonAction::Scenarios)
    } else if i == 1 {
        ("Saved Games"@, MenuButtonAction::SavedGames)
    } else if i == 2 {
        ("Settings"@, MenuButtonAction::Settings)
    } else {
        ("Exit"@, MenuButtonAction::Exit)
    }
}

/// The outcome of choosing `action`.
pub open spec fn action_outcome(action: MenuButtonAction) -> MainMenuCommand {
    match action {
        MenuButtonAction::Scenarios => MainMenuCommand::SwitchTo(SceneType::Game),
        MenuButtonAction::SavedGames => MainMenuCommand::SwitchTo(SceneType::SavedGames),
        MenuButtonAction::Settings => MainMenuCommand::SwitchTo(SceneType::Settings),
        MenuButtonAction::Exit => MainMenuCommand::Quit,
    }
}

/// The main menu: its buttons, top first.
pub struct MainMenu {
    buttons: Vec<MainMenuButton>,
}

impl View for MainMenu {
    type V = Seq<MainMenuButton>;

    closed spec fn view(&self) -> Seq<MainMenuButton> {
        self.buttons@
    }
}

impl MainMenu {
    /// The four buttons: Scenarios, Saved Games, Settings, Exit.
    pub fn new() -> (m: MainMenu)
        ensures
            m@.len() == 4,
            forall|i: int|
                0 <= i < 4 ==> (#[trigger] m@[i]).label@ == main_menu_button(i).0 && m@[i].action
                    == main_menu_button(i).1,
    {
        let buttons = vec![
            MainMenuButton { label: "Scenarios".to_string(), action: MenuButtonAction::Scenarios },
            MainMenuButton {
                label: "Saved Games".to_string(),
                action: MenuButtonAction::SavedGames,
            },
            MainMenuButton { label: "Settings".to_string(), action: MenuButtonAction::Settings },
            MainMenuButton { label: "Exit".to_string(), action: MenuButtonAction::Exit },
        ];
        MainMenu { buttons }
    }

    /// The buttons, top first.
    pub fn buttons(&self) -> (b: &Vec<MainMenuButton>)
        ensures
            b@ == self@,
    {
        &self.buttons
    }

    /// The action of the first button under the pointer; `hits[i]` tells
    /// whether the pointer is over button `i`.
    pub fn check_button_click(&self, hits: &Vec<bool>) -> (r: Option<MenuButtonAction>)
        requires
            hits@.len() == self@.len(),
        ensures
            match r {
                Some(a) => exists|i: int|
                    0 <= i < hits@.len() && hits@[i] && self@[i].action == a && forall|j: int|
                        0 <= j < i ==> !#[trigger] hits@[j],
                None => forall|j: int| 0 <= j < hits@.len() ==> !#[trigger] hits@[j],
            },
    {
        let mut i: usize = 0;
        while i < self.buttons.len()
            invariant
                hits@.len() == self.buttons@.len(),
                i <= hits@.len(),
                forall|j: int| 0 <= j < i ==> !#[trigger] hits@[j],
            decreases hits@.len() - i,
        {
            if hits[i] {
                return Some(self.buttons[i].action);
            }
            i += 1;
        }
        None
    }

    /// What a click leads to: only the left button acts, and only on a
    /// button; `hits[i]` tells whether the pointer is over button `i`.
    pub fn handle_click(&self, hits: &Vec<bool>, is_left_button: bool) -> (c: MainMenuCommand)
        requires
            hits@.len() == self@.len(),
        ensures
            !is_left_button ==> c == MainMenuCommand::Stay,
            is_left_button ==> (c == MainMenuCommand::Stay <==> forall|j: int|
                0 <= j < hits@.len() ==> !#[trigger] hits@[j]),
            is_left_button && c != MainMenuCommand::Stay ==> exists|i: int|
                0 <= i < hits@.len() && hits@[i] && c == action_outcome(self@[i].action)
                    && forall|j: int| 0 <= j < i ==> !#[trigger] hits@[j],
    {
        if !is_left_button {
            return MainMenuCommand::Stay;
        }
        match self.check_button_click(hits) {
            Some(action) => outcome_of(action),
            None => MainMenuCommand::Stay,
        }
    }

    /// What a key press leads to: Escape quits, other keys do nothing.
    pub fn handle_key(&self, is_escape: bool) -> (c: MainMenuCommand)
        ensures
            c == (if is_escape {
                MainMenuCommand::Quit
            } else {
                MainMenuCommand::Stay
            }),
    {
        if is_escape {
            MainMenuCommand::Quit
        } else {
            MainMenuCommand::Stay
        }
    }
}

/// The outcome of choosing `action`.
pub fn outcome_of(action: MenuButtonAction) -> (c: MainMenuCommand)
    ensures
        c == action_outcome(action),
{
    match action {
        MenuButtonAction::Scenarios => MainMenuCommand::SwitchTo(SceneType::Game),
        MenuButtonAction::SavedGames => MainMenuCommand::SwitchTo(SceneType::SavedGames),
        MenuButtonAction::Settings => MainMenuCommand::SwitchTo(SceneType::Settings),
        MenuButtonAction::Exit => MainMenuCommand::Quit,
    }
}

} // verus!
