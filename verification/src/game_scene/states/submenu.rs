//! Game submenu state: keyboard selection among the submenu items and the
//! hex where the submenu was opened.
use vstd::prelude::*;
use crate::hexagon::HexCoord;

verus! {

/// Items of the game submenu.
#[derive(Debug, Clone, Copy, PartialEq, Eq, Structural)]
pub enum SubmenuItem {
    Recruit,
}

/// The items of the game submenu, in display order.
pub open spec fn submenu_items() -> Seq<SubmenuItem> {
    seq![SubmenuItem::Recruit]
}

/// Game submenu handler: index of the selected item, and the hex where
/// recruitment would place a unit.
#[derive(Debug, Clone, Copy, PartialEq, Eq, Structural)]
pub struct SubmenuState {
    selected_item: usize,
    recruit_position: Option<HexCoord>,
}

impl View for SubmenuState {
    type V = (usize, Option<HexCoord>);

    closed spec fn view(&self) -> (usize, Option<HexCoord>) {
        (self.selected_item, self.recruit_position)
    }
}

/// Index after moving the selection forward among `count` items, wrapping.
pub open spec fn next_index(i: int, count: int) -> int {
    if count > 0 { (i + 1) % count } else { i }
}

/// Index after moving the selection backward among `count` items, wrapping.
pub open spec fn previous_index(i: int, count: int) -> int {
    if count > 0 { if i == 0 { count - 1 } else { i - 1 } } else { i }
}

impl SubmenuState {
    /// First item selected, no recruit position.
    pub fn new() -> (s: SubmenuState)
        ensures
            s@ == (0usize, None::<HexCoord>),
    {
        SubmenuState { selected_item: 0, recruit_position: None }
    }

    /// Remember where recruitment should place a unit.
    pub fn set_recruit_position(&mut self, position: HexCoord)
        ensures
            final(self)@ == (old(self)@.0, Some(position)),
    {
        self.recruit_position = Some(position);
    }

    /// The remembered recruit position, if any.
    pub fn recruit_position(&self) -> (p: Option<HexCoord>)
        ensures
            p == self@.1,
    {
        self.recruit_position
    }

    /// All submenu items.
    pub fn items(&self) -> (v: Vec<SubmenuItem>)
        ensures
            v@ == submenu_items(),
    {
        let v = vec![SubmenuItem::Recruit];
        assert(v@ =~= submenu_items());
        v
    }

    /// Index of the selected item.
    pub fn selected_item(&self) -> (i: usize)
        ensures
            i == self@.0,
    {
        self.selected_item
    }

    /// Select the next item, wrapping to the first.
    pub fn select_next(&mut self)
        requires
            old(self)@.0 < usize::MAX,
        ensures
            final(self)@ == (next_index(old(self)@.0 as int, submenu_items().len() as int) as usize, old(self)@.1),
    {
        let item_count = self.items().len();
        if item_count > 0 {
            self.selected_item = (self.selected_item + 1) % item_count;
        }
    }

    /// Select the previous item, wrapping to the last.
    pub fn select_previous(&mut self)
        ensures
            final(self)@ == (previous_index(old(self)@.0 as int, submenu_items().len() as int) as usize, old(self)@.1),
    {
        let item_count = self.items().len();
        if item_count > 0 {
            self.selected_item = if self.selected_item == 0 {
                item_count - 1
            } else {
                self.selected_item - 1
            };
        }
    }

    /// Display label of a submenu item.
    pub fn item_label(item: SubmenuItem) -> (s: &'static str)
        ensures
            s@ == (match item {
                SubmenuItem::Recruit => "Recruit"@,
            }),
    {
        match item {
            SubmenuItem::Recruit => "Recruit",
        }
    }
}

impl Default for SubmenuState {
    fn default() -> (s: SubmenuState)
        ensures
            s@ == (0usize, None::<HexCoord>),
    {
        SubmenuState::new()
    }
}

/// Law: on any selection inside the menu, moving forward then backward (or
/// backward then forward) returns to the same item, and the selection always
/// stays inside the menu.
pub proof fn law_selection_round_trip(i: int, count: int)
    requires
        0 <= i < count,
    ensures
        previous_index(next_index(i, count), count) == i,
        next_index(previous_index(i, count), count) == i,
        0 <= next_index(i, count) < count,
        0 <= previous_index(i, count) < count,
{
    if i + 1 < count {
        vstd::arithmetic::div_mod::lemma_small_mod((i + 1) as nat, count as nat);
    } else {
        vstd::arithmetic::div_mod::lemma_mod_self_0(count);
    }
    if i == 0 {
        vstd::arithmetic::div_mod::lemma_mod_self_0(count);
    } else {
        vstd::arithmetic::div_mod::lemma_small_mod(i as nat, count as nat);
    }
}

} // verus!
