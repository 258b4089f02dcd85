//! The gameplay scene and its state machine: the current game state and the
//! handlers that each state needs.
use vstd::prelude::*;
use std::marker::PhantomData;

pub mod states;

pub use states::combat::CombatState;
pub use states::encyclopedia::EncyclopediaState;
pub use states::exploring::ExploringState;
pub use states::pickup::PickupState;
pub use states::submenu::SubmenuState;
pub use states::GameState;

verus! {

/// The gameplay scene; the gameplay itself is driven by the application.
pub struct GameScene {
    _marker: PhantomData<()>,
}

impl GameScene {
    /// Create a new game scene.
    pub fn new() -> (s: GameScene) {
        GameScene { _marker: PhantomData }
    }
}

impl Default for GameScene {
    fn default() -> (s: GameScene) {
        GameScene::new()
    }
}

/// The central coordinator of the game states: the current state, the
/// persistent handlers for exploration, the encyclopedia and the submenu,
/// and the handlers for combat confirmation and item pickup, which exist
/// only while their state is current.
pub struct GameSceneState {
    /// Current game state.
    pub current_state: GameState,
    /// Exploring state handler (persistent).
    pub exploring: ExploringState,
    /// Combat state handler (present only during combat confirmation).
    pub combat: Option<CombatState>,
    /// Pickup state handler (present only during an item pickup prompt).
    pub pickup: Option<PickupState>,
    /// Encyclopedia state handler (persistent).
    pub encyclopedia: EncyclopediaState,
    /// Game submenu state handler (persistent).
    pub submenu: SubmenuState,
}

/// The combat handler that a state calls for: one for the attacker and
/// defender of a combat confirmation, none otherwise.
pub open spec fn combat_handler_for(s: GameState) -> Option<CombatState> {
    match s {
        GameState::CombatConfirmation { attacker_id, defender_id } => Some(
            CombatState { attacker_id, defender_id },
        ),
        _ => None,
    }
}

/// The pickup handler that a state calls for: one for the unit, item and
/// item name of an item pickup, none otherwise.
pub open spec fn pickup_handler_for(s: GameState) -> Option<PickupState> {
    match s {
        GameState::ItemPickup { unit_id, item_id, item_name } => Some(
            PickupState { unit_id, item_id, item_name },
        ),
        _ => None,
    }
}

/// The state manager after moving from `s` to `new_state`.
pub open spec fn after_transition(s: GameSceneState, new_state: GameState) -> GameSceneState {
    GameSceneState {
        current_state: new_state,
        combat: if new_state is CombatConfirmation {
            combat_handler_for(new_state)
        } else if s.current_state is CombatConfirmation {
            None
        } else {
            s.combat
        },
        pickup: if new_state is ItemPickup {
            pickup_handler_for(new_state)
        } else if s.current_state is ItemPickup {
            None
        } else {
            s.pickup
        },
        ..s
    }
}

impl GameSceneState {
    /// The on-demand handlers are exactly those that the current state calls for.
    pub open spec fn handlers_match_state(&self) -> bool {
        &&& self.combat == combat_handler_for(self.current_state)
        &&& self.pickup == pickup_handler_for(self.current_state)
    }

    /// A new state manager in the exploring state, with fresh persistent
    /// handlers and no on-demand handlers.
    pub fn new() -> (s: GameSceneState)
        ensures
            s.current_state == GameState::Exploring,
            s.exploring.selected_unit is None,
            s.exploring.movement_range@.len() == 0,
            s.combat is None,
            s.pickup is None,
            s.encyclopedia.visible == false,
            s.submenu@ == (0usize, None::<crate::hexagon::HexCoord>),
            s.handlers_match_state(),
    {
        GameSceneState {
            current_state: GameState::default(),
            exploring: ExploringState::new(),
            combat: None,
            pickup: None,
            encyclopedia: EncyclopediaState::new(),
            submenu: SubmenuState::new(),
        }
    }

    /// Move to `new_state`: the handler of the state being left is dropped
    /// (combat or pickup), the handler of the state being entered is created
    /// from its data (combat or pickup); the persistent handlers are kept.
    pub fn transition_to(&mut self, new_state: GameState)
        ensures
            *final(self) == after_transition(*old(self), new_state),
            final(self).current_state == new_state,
            final(self).exploring == old(self).exploring,
            final(self).encyclopedia == old(self).encyclopedia,
            final(self).submenu == old(self).submenu,
    {
        match &self.current_state {
            GameState::CombatConfirmation { .. } => {
                self.combat = None;
            },
            GameState::ItemPickup { .. } => {
                self.pickup = None;
            },
            _ => {},
        }
        match &new_state {
            GameState::CombatConfirmation { attacker_id, defender_id } => {
                self.combat = Some(CombatState::new(*attacker_id, *defender_id));
            },
            GameState::ItemPickup { unit_id, item_id, item_name } => {
                self.pickup = Some(PickupState::new(*unit_id, *item_id, item_name.clone()));
            },
            GameState::Menu => {},
            GameState::Encyclopedia => {},
            GameState::Exploring => {},
            GameState::Animating { .. } => {},
            GameState::GameSubmenu => {},
        }
        self.current_state = new_state;
    }
}

impl Default for GameSceneState {
    fn default() -> (s: GameSceneState)
        ensures
            s.current_state == GameState::Exploring,
            s.exploring.selected_unit is None,
            s.exploring.movement_range@.len() == 0,
            s.combat is None,
            s.pickup is None,
            s.encyclopedia.visible == false,
            s.submenu@ == (0usize, None::<crate::hexagon::HexCoord>),
            s.handlers_match_state(),
    {
        GameSceneState::new()
    }
}

/// Law: every transition keeps the on-demand handlers in step with the
/// state: after moving to any state, a combat handler exists exactly during
/// a combat confirmation (for its attacker and defender) and a pickup handler
/// exactly during an item pickup (for its unit, item and name); the
/// persistent handlers are never touched.
pub proof fn law_transition_keeps_handlers_in_step(before: GameSceneState, new_state: GameState)
    requires
        before.handlers_match_state(),
    ensures
        after_transition(before, new_state).handlers_match_state(),
        after_transition(before, new_state).exploring == before.exploring,
        after_transition(before, new_state).encyclopedia == before.encyclopedia,
        after_transition(before, new_state).submenu == before.submenu,
{
}

/// Law: a transition always enters the requested state, whatever the state
/// it leaves, and never touches the persistent handlers. Entering a combat
/// confirmation or an item pickup creates its handler from the state's data;
/// leaving one drops its handler.
pub proof fn law_transition_enters_requested_state(before: GameSceneState, new_state: GameState)
    ensures
        after_transition(before, new_state).current_state == new_state,
        after_transition(before, new_state).exploring == before.exploring,
        after_transition(before, new_state).encyclopedia == before.encyclopedia,
        after_transition(before, new_state).submenu == before.submenu,
        new_state matches GameState::CombatConfirmation { attacker_id, defender_id } ==> after_transition(
            before,
            new_state,
        ).combat == Some(CombatState { attacker_id, defender_id }),
        new_state matches GameState::ItemPickup { unit_id, item_id, item_name } ==> after_transition(
            before,
            new_state,
        ).pickup == Some(PickupState { unit_id, item_id, item_name }),
        before.current_state is CombatConfirmation && !(new_state is CombatConfirmation)
            ==> after_transition(before, new_state).combat is None,
        before.current_state is ItemPickup && !(new_state is ItemPickup) ==> after_transition(
            before,
            new_state,
        ).pickup is None,
{
}

} // verus!
