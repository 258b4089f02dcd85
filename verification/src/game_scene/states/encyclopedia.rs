//! Encyclopedia state: whether the encyclopedia panel is shown.
use vstd::prelude::*;

verus! {

/// Encyclopedia handler.
#[derive(Debug, Clone, PartialEq, Eq, Structural)]
pub struct EncyclopediaState {
    pub visible: bool,
}

impl EncyclopediaState {
    /// A new encyclopedia state with the panel hidden.
    pub fn new() -> (s: EncyclopediaState)
        ensures
            s.visible == false,
    {
        EncyclopediaState { visible: false }
    }

    /// Whether the encyclopedia is shown.
    pub fn is_visible(&self) -> (b: bool)
        ensures
            b == self.visible,
    {
        self.visible
    }
}

impl Default for EncyclopediaState {
    fn default() -> (s: EncyclopediaState)
        ensures
            s.visible == false,
    {
        EncyclopediaState::new()
    }
}

} // verus!
