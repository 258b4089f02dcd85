//! Combat confirmation state: the attacker and defender awaiting confirmation.
use vstd::prelude::*;
use uuid::Uuid;

verus! {

/// Combat confirmation handler.
pub struct CombatState {
    pub attacker_id: Uuid,
    pub defender_id: Uuid,
}

impl CombatState {
    /// A combat confirmation between `attacker_id` and `defender_id`.
    pub fn new(attacker_id: Uuid, defender_id: Uuid) -> (c: CombatState)
        ensures
            c == (CombatState { attacker_id, defender_id }),
    {
        CombatState { attacker_id, defender_id }
    }
}

} // verus!
