//! Exploring state: the selected unit and the hexes it can move to.
use vstd::prelude::*;
use uuid::Uuid;
use crate::hexagon::HexCoord;

verus! {

/// Exploring handler: the selected unit, if any, and its movement range.
pub struct ExploringState {
    /// Currently selected unit.
    pub selected_unit: Option<Uuid>,
    /// Hexes the selected unit can move to.
    pub movement_range: Vec<HexCoord>,
}

impl ExploringState {
    /// No unit selected, empty movement range.
    pub fn new() -> (s: ExploringState)
        ensures
            s.selected_unit is None,
            s.movement_range@.len() == 0,
    {
        ExploringState { selected_unit: None, movement_range: Vec::new() }
    }

    /// Deselect the unit and clear its movement range.
    pub fn deselect_unit(&mut self)
        ensures
            final(self).selected_unit is None,
            final(self).movement_range@.len() == 0,
    {
        self.selected_unit = None;
        self.movement_range.clear();
    }

    /// Select a unit (or none) without computing its range; deselecting
    /// clears the movement range, selecting keeps it.
    pub fn set_selected_unit(&mut self, unit_id: Option<Uuid>)
        ensures
            final(self).selected_unit == unit_id,
            final(self).movement_range@ == (if unit_id is None {
                Seq::empty()
            } else {
                old(self).movement_range@
            }),
    {
        self.selected_unit = unit_id;
        if unit_id.is_none() {
            self.movement_range.clear();
        }
    }

    /// Replace the movement range.
    pub fn set_movement_range(&mut self, range: Vec<HexCoord>)
        ensures
            final(self).selected_unit == old(self).selected_unit,
            final(self).movement_range@ == range@,
    {
        self.movement_range = range;
    }

    /// The selected unit, if any.
    pub fn selected_unit(&self) -> (u: Option<Uuid>)
        ensures
            u == self.selected_unit,
    {
        self.selected_unit
    }

    /// The hexes the selected unit can move to.
    pub fn movement_range(&self) -> (r: &[HexCoord])
        ensures
            r@ == self.movement_range@,
    {
        self.movement_range.as_slice()
    }
}

impl Default for ExploringState {
    fn default() -> (s: ExploringState)
        ensures
            s.selected_unit is None,
            s.movement_range@.len() == 0,
    {
        ExploringState::new()
    }
}

} // verus!
