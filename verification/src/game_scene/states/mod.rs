//! The game states and their data.
use vstd::prelude::*;
use uuid::Uuid;

pub mod combat;
pub mod encyclopedia;
pub mod exploring;
pub mod menu;
pub mod pickup;
pub mod submenu;

verus! {

/// Every state the game can be in, with the data that state needs.
#[derive(Debug, Clone, PartialEq)]
pub enum GameState {
    /// Normal exploration and unit movement mode.
    Exploring,
    /// Combat confirmation dialog between an attacker and a defender.
    CombatConfirmation { attacker_id: Uuid, defender_id: Uuid },
    /// Item pickup prompt for a unit, an item and the item's name.
    ItemPickup { unit_id: Uuid, item_id: Uuid, item_name: String },
    /// In-game menu.
    Menu,
    /// Encyclopedia display.
    Encyclopedia,
    /// A unit's movement is being animated.
    Animating { unit_id: Uuid },
    /// The right-click game submenu.
    GameSubmenu,
}

impl Default for GameState {
    fn default() -> (s: GameState)
        ensures
            s == GameState::Exploring,
    {
        GameState::Exploring
    }
}

} // verus!
