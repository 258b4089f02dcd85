//! In-game menu state.
use vstd::prelude::*;

verus! {

/// In-game menu handler.
#[derive(Debug, Clone, Copy, PartialEq, Eq, Structural)]
pub struct MenuState;

impl MenuState {
    /// A new menu state.
    pub fn new() -> (m: MenuState)
        ensures
            m == MenuState,
    {
        MenuState
    }
}

impl Default for MenuState {
    fn default() -> (m: MenuState)
        ensures
            m == MenuState,
    {
        MenuState
    }
}

} // verus!
