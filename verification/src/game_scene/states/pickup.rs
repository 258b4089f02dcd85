//! Item pickup prompt state: the unit, the item and its display name.
use vstd::prelude::*;
use uuid::Uuid;

verus! {

/// Item pickup handler.
pub struct PickupState {
    pub unit_id: Uuid,
    pub item_id: Uuid,
    pub item_name: String,
}

impl PickupState {
    /// A pickup prompt for `unit_id` and the item `item_id` named `item_name`.
    pub fn new(unit_id: Uuid, item_id: Uuid, item_name: String) -> (p: PickupState)
        ensures
            p == (PickupState { unit_id, item_id, item_name }),
    {
        PickupState { unit_id, item_id, item_name }
    }
}

} // verus!
