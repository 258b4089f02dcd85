//! State of the side panels: the scrollable encyclopedia, the unit
//! information panel with its pickup prompt, the action submenu, and the
//! texts these panels show.
//!
//! Drawing and hit-testing in screen coordinates are done by the renderer;
//! what it measures reaches these operations as whole numbers of lines, rows
//! or indices.
use vstd::prelude::*;
use crate::hexagon::SpriteType;
use crate::text::{decimal, decimal_text, nat_digits, nat_text};

verus! {

/// Categories of the encyclopedia.
#[derive(Debug, Clone, Copy, PartialEq, Eq, Structural)]
pub enum EncyclopediaCategory {
    /// Unit information.
    Units,
    /// Terrain information.
    Terrain,
    /// Game mechanics.
    Mechanics,
}

/// Name of a category on its tab.
pub open spec fn category_name(c: EncyclopediaCategory) -> Seq<char> {
    match c {
        EncyclopediaCategory::Units => "Units"@,
        EncyclopediaCategory::Terrain => "Terrain"@,
        EncyclopediaCategory::Mechanics => "Mechanics"@,
    }
}

/// Position of a category among the tabs, from one.
pub open spec fn category_number(c: EncyclopediaCategory) -> nat {
    match c {
        EncyclopediaCategory::Units => 1,
        EncyclopediaCategory::Terrain => 2,
        EncyclopediaCategory::Mechanics => 3,
    }
}

impl EncyclopediaCategory {
    /// The text of the category's tab: its number, a colon and its name.
    pub fn tab_label(self) -> (s: String)
        ensures
            s@ == nat_digits(category_number(self)) + ": "@ + category_name(self),
    {
        let (number, name): (u64, &str) = match self {
            EncyclopediaCategory::Units => (1, "Units"),
            EncyclopediaCategory::Terrain => (2, "Terrain"),
            EncyclopediaCategory::Mechanics => (3, "Mechanics"),
        };
        let mut s = nat_text(number);
        s.append(": ");
        s.append(name);
        s
    }
}

/// How a content line of the encyclopedia is coloured.
#[derive(Debug, Clone, Copy, PartialEq, Eq, Structural)]
pub enum LineStyle {
    /// A frame line (starting with a box-drawing character).
    Border,
    /// A list item (holding a bullet).
    ListItem,
    /// Any other line.
    Plain,
}

/// Whether a character starts a frame line.
pub open spec fn is_frame_char(c: char) -> bool {
    c == '╔' || c == '╠' || c == '╚' || c == '║' || c == '═'
}

/// The style of a content line: a frame line if it starts with a
/// box-drawing character, else a list item if it holds a bullet.
pub open spec fn line_style_of(line: Seq<char>) -> LineStyle {
    if line.len() > 0 && is_frame_char(line[0]) {
        LineStyle::Border
    } else if line.contains('•') {
        LineStyle::ListItem
    } else {
        LineStyle::Plain
    }
}

/// The style of a content line.
pub fn line_style(line: &str) -> (style: LineStyle)
    ensures
        style == line_style_of(line@),
{
    let n = line.unicode_len();
    if n > 0 {
        let c = line.get_char(0);
        if c == '╔' || c == '╠' || c == '╚' || c == '║' || c == '═' {
            return LineStyle::Border;
        }
    }
    let mut i: usize = 0;
    while i < n
        invariant
            n == line@.len(),
            i <= n,
            !(line@.len() > 0 && is_frame_char(line@[0])),
            forall|j: int| 0 <= j < i ==> line@[j] != '•',
        decreases n - i,
    {
        if line.get_char(i) == '•' {
            return LineStyle::ListItem;
        }
        i += 1;
    }
    LineStyle::Plain
}

/// Largest scroll offset for `len` lines of which `page` fit on the panel:
/// the lines that do not fit, at least zero and at most `i32::MAX`.
pub open spec fn scroll_limit_for(len: int, page: int) -> int {
    if len - page > i32::MAX {
        i32::MAX as int
    } else if len - page > 0 {
        len - page
    } else {
        0
    }
}

/// The number of lines as the panel counts them, in `i32` (a count beyond
/// `i32::MAX` wraps around).
pub open spec fn counted_lines(len: nat) -> int {
    (len as i32) as int
}

/// `x` clamped to `lo..=hi` (with `lo <= hi`).
pub open spec fn clamp_int(x: int, lo: int, hi: int) -> int {
    if x < lo {
        lo
    } else if x > hi {
        hi
    } else {
        x
    }
}

/// Offset after scrolling up by `lines` from `offset`, stopping at the top.
pub open spec fn scrolled_up(offset: int, lines: int) -> int {
    if offset - lines > 0 {
        offset - lines
    } else {
        0
    }
}

/// Offset after scrolling down by `lines` from `offset`, stopping at `limit`.
pub open spec fn scrolled_down(offset: int, lines: int, limit: int) -> int {
    if offset + lines < limit {
        offset + lines
    } else {
        limit
    }
}

/// Scrollable encyclopedia page: the category shown, the lines of its
/// content, and how far it is scrolled (in lines).
pub struct EncyclopediaPanel {
    scroll_offset: i32,
    current_category: EncyclopediaCategory,
    content_lines: Vec<String>,
    max_scroll: i32,
    page_lines: i32,
}

impl EncyclopediaPanel {
    /// First content line shown.
    pub closed spec fn offset(&self) -> int {
        self.scroll_offset as int
    }

    /// Category being shown.
    pub closed spec fn category(&self) -> EncyclopediaCategory {
        self.current_category
    }

    /// The content lines.
    pub closed spec fn lines(&self) -> Seq<String> {
        self.content_lines@
    }

    /// The largest scroll offset for the current content.
    pub closed spec fn scroll_limit(&self) -> int {
        self.max_scroll as int
    }

    /// How many lines fit on the panel.
    pub closed spec fn page(&self) -> int {
        self.page_lines as int
    }

    /// The offset lies within the scrollable range and the limit fits the
    /// content.
    pub open spec fn scroll_in_range(&self) -> bool {
        &&& 0 <= self.offset() <= self.scroll_limit()
        &&& self.scroll_limit() == scroll_limit_for(counted_lines(self.lines().len()), self.page())
    }

    /// An empty page of the units category, unscrolled; `page_lines` lines
    /// fit on the panel.
    pub fn new(page_lines: i32) -> (p: EncyclopediaPanel)
        ensures
            p.offset() == 0,
            p.category() == EncyclopediaCategory::Units,
            p.lines().len() == 0,
            p.scroll_limit() == 0,
            p.page() == page_lines,
            page_lines >= 0 ==> p.scroll_in_range(),
    {
        EncyclopediaPanel {
            scroll_offset: 0,
            current_category: EncyclopediaCategory::Units,
            content_lines: Vec::new(),
            max_scroll: 0,
            page_lines,
        }
    }

    /// Replace the content; the limit follows the new length and the offset
    /// is clamped into the new range.
    pub fn update_content(&mut self, content: Vec<String>)
        ensures
            final(self).lines() == content@,
            final(self).page() == old(self).page(),
            final(self).scroll_limit() == scroll_limit_for(
                counted_lines(content@.len()),
                old(self).page(),
            ),
            final(self).offset() == clamp_int(
                old(self).offset(),
                0,
                final(self).scroll_limit(),
            ),
            final(self).category() == old(self).category(),
    {
        let len: i32 = #[verifier::truncate] (content.len() as i32);
        self.content_lines = content;
        let diff: i64 = len as i64 - self.page_lines as i64;
        self.max_scroll = if diff > i32::MAX as i64 {
            i32::MAX
        } else if diff > 0 {
            diff as i32
        } else {
            0
        };
        if self.scroll_offset < 0 {
            self.scroll_offset = 0;
        } else if self.scroll_offset > self.max_scroll {
            self.scroll_offset = self.max_scroll;
        }
    }

    /// Scroll towards the top by `lines`, stopping at the first line.
    pub fn scroll_up(&mut self, lines: i32)
        requires
            i32::MIN <= old(self).offset() - lines <= i32::MAX,
        ensures
            final(self).offset() == scrolled_up(old(self).offset(), lines as int),
            final(self).lines() == old(self).lines(),
            final(self).scroll_limit() == old(self).scroll_limit(),
            final(self).page() == old(self).page(),
            final(self).category() == old(self).category(),
    {
        let moved = self.scroll_offset - lines;
        self.scroll_offset = if moved > 0 { moved } else { 0 };
    }

    /// Scroll towards the end by `lines`, stopping at the limit.
    pub fn scroll_down(&mut self, lines: i32)
        requires
            i32::MIN <= old(self).offset() + lines <= i32::MAX,
        ensures
            final(self).offset() == scrolled_down(
                old(self).offset(),
                lines as int,
                old(self).scroll_limit(),
            ),
            final(self).lines() == old(self).lines(),
            final(self).scroll_limit() == old(self).scroll_limit(),
            final(self).page() == old(self).page(),
            final(self).category() == old(self).category(),
    {
        let moved = self.scroll_offset + lines;
        self.scroll_offset = if moved < self.max_scroll { moved } else { self.max_scroll };
    }

    /// Switch category; switching to another category scrolls back to the
    /// top.
    pub fn set_category(&mut self, category: EncyclopediaCategory)
        ensures
            final(self).category() == category,
            final(self).offset() == (if old(self).category() != category {
                0
            } else {
                old(self).offset()
            }),
            final(self).lines() == old(self).lines(),
            final(self).scroll_limit() == old(self).scroll_limit(),
            final(self).page() == old(self).page(),
    {
        if self.current_category != category {
            self.current_category = category;
            self.scroll_offset = 0;
        }
    }

    /// First content line shown.
    pub fn scroll_offset(&self) -> (o: i32)
        ensures
            o == self.offset(),
    {
        self.scroll_offset
    }

    /// Category being shown.
    pub fn current_category(&self) -> (c: EncyclopediaCategory)
        ensures
            c == self.category(),
    {
        self.current_category
    }

    /// The largest scroll offset for the current content.
    pub fn max_scroll(&self) -> (m: i32)
        ensures
            m == self.scroll_limit(),
    {
        self.max_scroll
    }

    /// Number of content lines.
    pub fn line_count(&self) -> (n: usize)
        ensures
            n == self.lines().len(),
    {
        self.content_lines.len()
    }

    /// The scroll indicator of the footer, shown when the content is longer
    /// than the page: the first line shown (from one) and the line count.
    pub fn scroll_indicator(&self) -> (t: Option<String>)
        ensures
            self.scroll_limit() <= 0 ==> t is None,
            self.scroll_limit() > 0 ==> t is Some && t->0@ == "↑/↓ to scroll | Line "@ + decimal(
                self.offset() + 1,
            ) + "/"@ + nat_digits(self.lines().len()),
    {
        if self.max_scroll > 0 {
            let mut s = "↑/↓ to scroll | Line ".to_string();
            let first = decimal_text(self.scroll_offset as i64 + 1);
            s.append(first.as_str());
            s.append("/");
            let count = nat_text(self.content_lines.len() as u64);
            s.append(count.as_str());
            Some(s)
        } else {
            None
        }
    }

    /// The lines shown: from the scroll offset on, at most `max_visible` of
    /// them.
    pub fn visible_lines(&self, max_visible: usize) -> (v: Vec<String>)
        requires
            0 <= self.offset() <= self.lines().len(),
        ensures
            v@ == self.lines().subrange(
                self.offset(),
                if self.offset() + max_visible < self.lines().len() {
                    self.offset() + max_visible
                } else {
                    self.lines().len() as int
                },
            ),
    {
        let start = self.scroll_offset as usize;
        let n = self.content_lines.len();
        let end = if max_visible < n - start { start + max_visible } else { n };
        let mut v: Vec<String> = Vec::new();
        let mut i = start;
        while i < end
            invariant
                start <= i <= end <= n,
                n == self.content_lines@.len(),
                v@ == self.content_lines@.subrange(start as int, i as int),
            decreases end - i,
        {
            v.push(self.content_lines[i].clone());
            i += 1;
            assert(v@ =~= self.content_lines@.subrange(start as int, i as int));
        }
        v
    }
}

/// Law: loading content puts the scroll offset within `0..=limit` for the
/// new content, whatever it was; once it is there, scrolling up or down by a
/// non-negative number of lines and switching category keep it there.
pub proof fn law_scroll_stays_in_range(offset: int, len: int, page: int, lines: int, changed: bool)
    requires
        0 <= lines,
    ensures
        0 <= clamp_int(offset, 0, scroll_limit_for(len, page)) <= scroll_limit_for(len, page),
        0 <= offset <= scroll_limit_for(len, page) ==> {
            &&& 0 <= scrolled_up(offset, lines) <= scroll_limit_for(len, page)
            &&& 0 <= scrolled_down(offset, lines, scroll_limit_for(len, page)) <= scroll_limit_for(
                len,
                page,
            )
            &&& 0 <= (if changed { 0 } else { offset }) <= scroll_limit_for(len, page)
        },
{
}


/// What the unit information panel shows of a unit.
#[derive(Debug, Clone)]
pub struct UnitDisplayInfo {
    pub name: String,
    /// Race of the unit (e.g. "Human", "Elf").
    pub race: String,
    /// Class of the unit (e.g. "Warrior", "Mage").
    pub class: String,
    pub level: i32,
    pub experience: i32,
    pub health: u32,
    pub max_health: u32,
    /// Terrain the unit stands on.
    pub terrain: String,
    pub position_q: i32,
    pub position_r: i32,
    /// Movement points left this turn.
    pub moves_left: u32,
    pub max_moves: u32,
    pub sprite_type: SpriteType,
}

/// Experience needed per level, as the experience bar shows it.
pub const EXPERIENCE_PER_LEVEL: i32 = 1000;

/// Remainder of `x` divided by `d` (`d > 0`), with the sign of `x`, as the
/// `%` operator on machine integers computes it.
pub open spec fn truncated_rem(x: int, d: int) -> int {
    if x >= 0 {
        x % d
    } else {
        -((-x) % d)
    }
}

/// Race and class, separated by a space.
pub open spec fn race_class_text(info: UnitDisplayInfo) -> Seq<char> {
    info.race@ + " "@ + info.class@
}

/// Health as "current/maximum".
pub open spec fn health_text(info: UnitDisplayInfo) -> Seq<char> {
    nat_digits(info.health as nat) + "/"@ + nat_digits(info.max_health as nat)
}

/// Progress towards the next level as "progress/1000".
pub open spec fn experience_text(info: UnitDisplayInfo) -> Seq<char> {
    decimal(truncated_rem(info.experience as int, EXPERIENCE_PER_LEVEL as int)) + "/"@
        + nat_digits(EXPERIENCE_PER_LEVEL as nat)
}

impl UnitDisplayInfo {
    /// The race-and-class line.
    pub fn race_class_line(&self) -> (s: String)
        ensures
            s@ == race_class_text(*self),
    {
        let mut s = self.race.clone();
        s.append(" ");
        s.append(self.class.as_str());
        s
    }

    /// The text on the health bar.
    pub fn health_line(&self) -> (s: String)
        ensures
            s@ == health_text(*self),
    {
        let mut s = nat_text(self.health as u64);
        s.append("/");
        let max = nat_text(self.max_health as u64);
        s.append(max.as_str());
        s
    }

    /// Experience gained within the current level.
    pub fn experience_progress(&self) -> (e: i32)
        ensures
            e == truncated_rem(self.experience as int, EXPERIENCE_PER_LEVEL as int),
            -EXPERIENCE_PER_LEVEL < e < EXPERIENCE_PER_LEVEL,
    {
        if self.experience >= 0 {
            self.experience % EXPERIENCE_PER_LEVEL
        } else {
            let magnitude: i64 = -(self.experience as i64);
            let r: i64 = magnitude % (EXPERIENCE_PER_LEVEL as i64);
            -(r as i32)
        }
    }

    /// The text on the experience bar.
    pub fn experience_line(&self) -> (s: String)
        ensures
            s@ == experience_text(*self),
    {
        let progress = self.experience_progress();
        let mut s = decimal_text(progress as i64);
        s.append("/");
        let per_level = nat_text(EXPERIENCE_PER_LEVEL as u64);
        s.append(per_level.as_str());
        s
    }
}

/// The item name as the pickup prompt shows it in a box holding
/// `max_chars` characters: a longer name is cut and ends with an ellipsis,
/// unless the box holds three characters or fewer.
pub open spec fn fitted_name(name: Seq<char>, max_chars: int) -> Seq<char> {
    if name.len() > max_chars && max_chars > 3 {
        name.take(max_chars - 1).push('…')
    } else {
        name
    }
}

/// The item name shown in the pickup prompt's box of `max_chars`
/// characters.
pub fn fit_item_name(name: &str, max_chars: usize) -> (s: String)
    ensures
        s@ == fitted_name(name@, max_chars as int),
        max_chars > 3 ==> s@.len() <= max_chars,
{
    let n = name.unicode_len();
    if n > max_chars && max_chars > 3 {
        let mut s = name.substring_char(0, max_chars - 1).to_string();
        proof {
            reveal_strlit("…");
        }
        s.append("…");
        assert(s@ =~= fitted_name(name@, max_chars as int));
        s
    } else {
        name.to_string()
    }
}

/// State of the unit information panel: the unit shown and the item offered
/// for pickup, if any.
pub struct UiPanel {
    unit_info: Option<UnitDisplayInfo>,
    pickup_prompt: Option<String>,
}

impl View for UiPanel {
    type V = (Option<UnitDisplayInfo>, Option<String>);

    closed spec fn view(&self) -> (Option<UnitDisplayInfo>, Option<String>) {
        (self.unit_info, self.pickup_prompt)
    }
}

impl UiPanel {
    /// No unit shown, no pickup offered.
    pub fn new() -> (p: UiPanel)
        ensures
            p@ == (None::<UnitDisplayInfo>, None::<String>),
    {
        UiPanel { unit_info: None, pickup_prompt: None }
    }

    /// Show `info`.
    pub fn set_unit_info(&mut self, info: UnitDisplayInfo)
        ensures
            final(self)@ == (Some(info), old(self)@.1),
    {
        self.unit_info = Some(info);
    }

    /// Show no unit.
    pub fn clear_unit_info(&mut self)
        ensures
            final(self)@ == (None::<UnitDisplayInfo>, old(self)@.1),
    {
        self.unit_info = None;
    }

    /// Offer the item `item_name` for pickup.
    pub fn set_pickup_prompt(&mut self, item_name: String)
        ensures
            final(self)@ == (old(self)@.0, Some(item_name)),
    {
        self.pickup_prompt = Some(item_name);
    }

    /// Withdraw the pickup offer.
    pub fn clear_pickup_prompt(&mut self)
        ensures
            final(self)@ == (old(self)@.0, None::<String>),
    {
        self.pickup_prompt = None;
    }

    /// The unit shown, if any.
    pub fn unit_info(&self) -> (r: &Option<UnitDisplayInfo>)
        ensures
            *r == self@.0,
    {
        &self.unit_info
    }

    /// The item offered for pickup, if any.
    pub fn pickup_prompt(&self) -> (r: &Option<String>)
        ensures
            *r == self@.1,
    {
        &self.pickup_prompt
    }

    /// A click hits the "Yes" (pick up) button: the buttons of the pickup
    /// prompt are there only while an item is offered, and `inside_button`
    /// says whether the click lies within the button's bounds.
    pub fn check_yes_button_click(&self, inside_button: bool) -> (b: bool)
        ensures
            b == (self@.1 is Some && inside_button),
    {
        self.pickup_prompt.is_some() && inside_button
    }

    /// A click hits the "No" (leave) button: the buttons of the pickup
    /// prompt are there only while an item is offered, and `inside_button`
    /// says whether the click lies within the button's bounds.
    pub fn check_no_button_click(&self, inside_button: bool) -> (b: bool)
        ensures
            b == (self@.1 is Some && inside_button),
    {
        self.pickup_prompt.is_some() && inside_button
    }
}

/// An entry of the action submenu: its label and whether it is selected.
#[derive(Debug, Clone)]
pub struct SubmenuItem {
    pub label: String,
    pub selected: bool,
}

/// The entries made from `labels`: one per label, in order, none selected.
pub open spec fn unselected_items(items: Seq<SubmenuItem>, labels: Seq<String>) -> bool {
    &&& items.len() == labels.len()
    &&& forall|i: int|
        0 <= i < items.len() ==> (#[trigger] items[i]).label == labels[i] && !items[i].selected
}

/// State of the action submenu: its entries in display order.
pub struct SubmenuPanel {
    items: Vec<SubmenuItem>,
}

impl View for SubmenuPanel {
    type V = Seq<SubmenuItem>;

    closed spec fn view(&self) -> Seq<SubmenuItem> {
        self.items@
    }
}

/// Entries for `labels`, none selected.
fn items_from_labels(labels: Vec<String>) -> (items: Vec<SubmenuItem>)
    ensures
        unselected_items(items@, labels@),
{
    let mut items: Vec<SubmenuItem> = Vec::new();
    let mut i: usize = 0;
    while i < labels.len()
        invariant
            i <= labels@.len(),
            items@.len() == i,
            forall|k: int|
                0 <= k < i ==> (#[trigger] items@[k]).label == labels@[k] && !items@[k].selected,
        decreases labels@.len() - i,
    {
        items.push(SubmenuItem { label: labels[i].clone(), selected: false });
        i += 1;
    }
    items
}

impl SubmenuPanel {
    /// A submenu with one unselected entry per label.
    pub fn new(labels: Vec<String>) -> (p: SubmenuPanel)
        ensures
            unselected_items(p@, labels@),
    {
        SubmenuPanel { items: items_from_labels(labels) }
    }

    /// Replace the entries by one unselected entry per label.
    pub fn set_items(&mut self, labels: Vec<String>)
        ensures
            unselected_items(final(self)@, labels@),
    {
        self.items = items_from_labels(labels);
    }

    /// Set the selection flag of entry `index`; an index past the end
    /// changes nothing.
    pub fn set_selected(&mut self, index: usize, selected: bool)
        ensures
            index < old(self)@.len() ==> final(self)@ == old(self)@.update(
                index as int,
                SubmenuItem { selected, ..old(self)@[index as int] },
            ),
            index >= old(self)@.len() ==> final(self)@ == old(self)@,
    {
        if index < self.items.len() {
            let item = SubmenuItem { label: self.items[index].label.clone(), selected };
            self.items[index] = item;
        }
    }

    /// The entries.
    pub fn items(&self) -> (r: &Vec<SubmenuItem>)
        ensures
            r@ == self@,
    {
        &self.items
    }

    /// The entry at row `row` of the list, if there is one.
    pub fn item_at_row(&self, row: usize) -> (r: Option<usize>)
        ensures
            r == (if row < self@.len() { Some(row) } else { None::<usize> }),
    {
        if row < self.items.len() {
            Some(row)
        } else {
            None
        }
    }
}

/// Text of the `index`-th (from zero) unit in the recruitment list.
pub open spec fn recruit_entry_text(index: nat, name: Seq<char>) -> Seq<char> {
    nat_digits(index + 1) + ". "@ + name
}

/// The line for the `index`-th (from zero) unit in the recruitment list:
/// its number from one, a dot, and its name.
pub fn recruit_entry_line(index: usize, name: &str) -> (s: String)
    requires
        index < u64::MAX,
    ensures
        s@ == recruit_entry_text(index as nat, name@),
{
    let mut s = nat_text(index as u64 + 1);
    s.append(". ");
    s.append(name);
    s
}

/// The recruitment list entry at row `row`, among `unit_count` units.
pub fn recruit_entry_at_row(row: usize, unit_count: usize) -> (r: Option<usize>)
    ensures
        r == (if row < unit_count { Some(row) } else { None::<usize> }),
{
    if row < unit_count {
        Some(row)
    } else {
        None
    }
}

} // verus!
