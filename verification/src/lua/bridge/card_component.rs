//! [`LuaCardComponent`]: a sidebar section pushed by
//! `ttymap.api.card.open(spec)`.
//!
//! Spec fields: `name`, `render` (free-form lines), `items` (a list of
//! multi-line rows) with `selected` (the 1-based selected row),
//! `handle_event`, `footer_hints`. A card shows its `items` as a list
//! when there are any, else its `render` lines as a scrollable
//! paragraph. Keys the script leaves alone scroll the paragraph.
use vstd::prelude::*;
use crate::keys::{KeyCode, KeyModifiers};
use crate::lua::bridge::handle::{CallOutcome, LuaHandle, outcome_as_sequence};
use crate::lua::bridge::layout::Placement;
use crate::lua::bridge::parse::{
    KeyAction, ReturnFields, StyleKind, key_arg, parse_footer_hints, parse_item_values, parse_line_value,
    spec_answer_action,
};
use crate::lua::bridge::window_component::{display_name, spec_display_name};
use crate::lua::bridge::window_handle::CloseFlag;
use crate::lua::value::{CallArg, LuaTable, LuaVal, table_get, table_get_string};

verus! {

/// The paragraph scroll a key asks for when the script left the key
/// alone (`cur` is the first visible line, `page` the section height):
/// Down / C-n one line down, Up / C-p one line up, PageDown / PageUp a
/// page, Home the top, End the bottom (clamped when painted). `None`
/// for any other key, which passes on to the base layer.
pub open spec fn spec_scroll_key(code: KeyCode, ctrl: bool, cur: u16, page: u16) -> Option<u16> {
    let down1: u16 = if cur == u16::MAX { u16::MAX } else { (cur + 1) as u16 };
    let up1: u16 = if cur == 0 { 0 } else { (cur - 1) as u16 };
    match code {
        KeyCode::Down => if !ctrl { Some(down1) } else { None },
        KeyCode::Up => if !ctrl { Some(up1) } else { None },
        KeyCode::Char(c) => if ctrl && c == 'n' {
            Some(down1)
        } else if ctrl && c == 'p' {
            Some(up1)
        } else {
            None
        },
        KeyCode::PageDown => Some(if cur + page > u16::MAX { u16::MAX } else { (cur + page) as u16 }),
        KeyCode::PageUp => Some(if cur < page { 0 } else { (cur - page) as u16 }),
        KeyCode::Home => Some(0),
        KeyCode::End => Some(u16::MAX),
        _ => None,
    }
}

/// The paragraph scroll for a key.
pub fn scroll_key(code: KeyCode, ctrl: bool, cur: u16, page: u16) -> (r: Option<u16>)
    ensures
        r == spec_scroll_key(code, ctrl, cur, page),
{
    match code {
        KeyCode::Down => if !ctrl {
            Some(cur.saturating_add(1))
        } else {
            None
        },
        KeyCode::Up => if !ctrl {
            Some(cur.saturating_sub(1))
        } else {
            None
        },
        KeyCode::Char(c) => if ctrl && c == 'n' {
            Some(cur.saturating_add(1))
        } else if ctrl && c == 'p' {
            Some(cur.saturating_sub(1))
        } else {
            None
        },
        KeyCode::PageDown => Some(cur.saturating_add(page)),
        KeyCode::PageUp => Some(cur.saturating_sub(page)),
        KeyCode::Home => Some(0),
        KeyCode::End => Some(u16::MAX),
        _ => None,
    }
}

/// The first visible line once a paragraph of `total` lines is painted
/// into `height` rows: the requested offset, pulled back so the last
/// page is never followed by blank rows.
pub open spec fn spec_clamp_offset(offset: u16, total: u16, height: u16) -> u16 {
    let max_offset: u16 = if total > height { (total - height) as u16 } else { 0 };
    if offset > max_offset {
        max_offset
    } else {
        offset
    }
}

/// What a card paints.
#[derive(Debug, Clone, Copy, PartialEq, Eq, Structural)]
pub enum CardView {
    /// No side-area chrome (marker-only card).
    Nothing,
    /// The `items` list.
    List,
    /// The `render` lines.
    Paragraph,
    /// An empty panel: the card has an `items` function but no rows
    /// and no `render`.
    Panel,
}

/// What a card paints: nothing without `render` and `items`; the list
/// when `items` gave rows; otherwise the paragraph when there is a
/// `render`, else an empty panel.
pub open spec fn spec_card_view(has_render: bool, has_items: bool, item_count: nat) -> CardView {
    if !has_render && !has_items {
        CardView::Nothing
    } else if has_items && item_count > 0 {
        CardView::List
    } else if has_render {
        CardView::Paragraph
    } else {
        CardView::Panel
    }
}

pub fn card_view(has_render: bool, has_items: bool, item_count: usize) -> (r: CardView)
    ensures
        r == spec_card_view(has_render, has_items, item_count as nat),
{
    if !has_render && !has_items {
        CardView::Nothing
    } else if has_items && item_count > 0 {
        CardView::List
    } else if has_render {
        CardView::Paragraph
    } else {
        CardView::Panel
    }
}

/// The row a 1-based Lua selection names among `count` rows, 0-based;
/// `None` for a non-integer, non-positive or out-of-range selection.
pub open spec fn spec_selected_index(selected: Option<i64>, count: usize) -> Option<usize> {
    match selected {
        Some(i) => if i >= 1 && i - 1 < count {
            Some((i - 1) as usize)
        } else {
            None
        },
        None => None,
    }
}

pub fn selected_index_of(selected: Option<i64>, count: usize) -> (r: Option<usize>)
    ensures
        r == spec_selected_index(selected, count),
{
    match selected {
        Some(i) => if i >= 1 {
            let zero: u64 = (i - 1) as u64;
            if zero < count as u64 {
                Some(zero as usize)
            } else {
                None
            }
        } else {
            None
        },
        None => None,
    }
}

/// What a key press does to a card, after the script had its say.
#[derive(Debug, Clone, Copy, PartialEq, Eq, Structural)]
pub enum CardKeyOutcome {
    /// The paragraph scrolled; the key is consumed.
    Scrolled,
    /// The card closes.
    Close,
    /// The key passes on to the base layer.
    Ignore,
    /// The key is consumed.
    Consume,
}

/// A sidebar card backed by a Lua spec table.
pub struct LuaCardComponent {
    pub handle: LuaHandle,
    /// Shared with the card's Lua-side handle.
    pub flag: CloseFlag,
    /// User-facing label.
    pub display: String,
    /// Whether the spec has a `render` function.
    pub has_render: bool,
    /// Whether the spec has an `items` function.
    pub has_items: bool,
    /// Static footer hints from `spec.footer_hints`.
    pub footer_hints: Vec<(String, String)>,
    /// First visible paragraph line.
    pub scroll_offset: u16,
    /// Height of the section's content when last painted: the page
    /// size for PageUp / PageDown (10 until the first paint).
    pub last_inner_height: u16,
}

/// `true` iff `spec[key]` is a function.
fn has_function(spec: &LuaTable, key: &str) -> (r: bool) {
    match table_get(spec, key).0 {
        Ok(v) => match v {
            LuaVal::Function(_) => true,
            _ => false,
        },
        Err(_) => false,
    }
}

/// One key step of a card that the script answered with `action`: an
/// ignored scroll key moves the paragraph to where [`spec_scroll_key`]
/// says (paging by the last painted height, at least one line) and
/// reports `Scrolled`; otherwise the offset stays and the outcome
/// follows `action`. The painted height never changes.
pub open spec fn spec_key_step(
    before: LuaCardComponent,
    action: KeyAction,
    code: KeyCode,
    modifiers: KeyModifiers,
    r: CardKeyOutcome,
    after: LuaCardComponent,
) -> bool {
    let page: u16 = if before.last_inner_height >= 1 { before.last_inner_height } else { 1 };
    let s = spec_scroll_key(code, modifiers.has(KeyModifiers { bits: 2 }), before.scroll_offset, page);
    &&& after.last_inner_height == before.last_inner_height
    &&& if action == KeyAction::Ignore && s is Some {
        r == CardKeyOutcome::Scrolled && after.scroll_offset == s->0
    } else {
        &&& after.scroll_offset == before.scroll_offset
        &&& r == match action {
            KeyAction::Close => CardKeyOutcome::Close,
            KeyAction::Ignore => CardKeyOutcome::Ignore,
            KeyAction::Consume => CardKeyOutcome::Consume,
        }
    }
}

impl LuaCardComponent {
    /// Build a card from a spec table.
    pub fn from_spec(spec: LuaTable, log_tag: &str, flag: CloseFlag) -> (r: Self)
        ensures
            r.flag == flag,
            r.handle.log_tag@ == log_tag@,
            r.handle.module == spec,
            exists|name: Option<String>| r.display@ == spec_display_name(name, log_tag@),
            r.scroll_offset == 0,
            r.last_inner_height == 10,
    {
        let name = table_get_string(&spec, "name").0.ok();
        let ghost g = name;
        let display = display_name(name, log_tag);
        assert(display@ == spec_display_name(g, log_tag@));
        let has_render = has_function(&spec, "render");
        let has_items = has_function(&spec, "items");
        let footer_hints = parse_footer_hints(&spec);
        let handle = LuaHandle::new(spec, log_tag.to_owned());
        LuaCardComponent {
            handle,
            flag,
            display,
            has_render,
            has_items,
            footer_hints,
            scroll_offset: 0,
            last_inner_height: 10,
        }
    }

    /// Where the card is placed: always a section of the left sidebar;
    /// the spec's `layout` field is not read.
    pub fn placement(&self) -> (r: Placement)
        ensures
            r == Placement::Sidebar,
    {
        Placement::Sidebar
    }

    /// The card's label.
    pub fn name(&self) -> (r: &str)
        ensures
            r@ == self.display@,
    {
        self.display.as_str()
    }

    /// The card's footer hints.
    pub fn footer_hints(&self) -> (r: &Vec<(String, String)>)
        ensures
            *r == self.footer_hints,
    {
        &self.footer_hints
    }

    /// The `render()` lines; empty when missing, raising or not a table.
    pub fn render_lines(&self) -> (r: Vec<Vec<(String, StyleKind)>>)
        ensures
            forall|i: int| 0 <= i < r@.len() ==> #[trigger] r@[i]@.len() >= 1,
    {
        let mut out: Vec<Vec<(String, StyleKind)>> = Vec::new();
        if let CallOutcome::Returned(raw) = outcome_as_sequence(self.handle.try_call("render", CallArg::Unit)) {
            let mut raw = raw;
            while raw.len() > 0
                invariant
                    forall|i: int| 0 <= i < out@.len() ==> #[trigger] out@[i]@.len() >= 1,
                decreases raw@.len(),
            {
                let v = raw.remove(0);
                out.push(parse_line_value(v));
            }
        }
        out
    }

    /// The `items()` rows, each a list of lines; empty when missing,
    /// raising or not a table.
    pub fn render_items(&self) -> (r: Vec<Vec<Vec<(String, StyleKind)>>>)
        ensures
            forall|i: int| 0 <= i < r@.len() ==> #[trigger] r@[i]@.len() >= 1,
            forall|i: int, j: int| 0 <= i < r@.len() && 0 <= j < r@[i]@.len() ==> #[trigger] r@[i]@[j]@.len() >= 1,
    {
        match outcome_as_sequence(self.handle.try_call("items", CallArg::Unit)) {
            CallOutcome::Returned(raw) => parse_item_values(raw),
            _ => Vec::new(),
        }
    }

    /// The 0-based row `selected()` names among `item_count` rows.
    pub fn selected_index(&self, item_count: usize) -> (r: Option<usize>)
        ensures
            exists|sel: Option<i64>| r == spec_selected_index(sel, item_count),
    {
        let sel: Option<i64> = match self.handle.try_call("selected", CallArg::Unit) {
            CallOutcome::Returned(LuaVal::Integer(i, _)) => Some(i),
            _ => None,
        };
        let ghost g = sel;
        let r = selected_index_of(sel, item_count);
        assert(r == spec_selected_index(g, item_count));
        r
    }

    /// Run the script's `handle_event` with the key table of the press
    /// (see [`key_arg`]) and return the action it asked for: no handler
    /// ignores the key, a raising handler (or a key table that could not
    /// be built) consumes it, an answer acts as [`spec_answer_action`]
    /// says.
    pub fn dispatch_event(&self, code: KeyCode, modifiers: KeyModifiers) -> (r: KeyAction)
        ensures
            exists|a: CallOutcome<Option<ReturnFields>>| r == spec_answer_action(a),
    {
        let o = self.handle.try_call("handle_event", key_arg(code, modifiers));
        KeyAction::from_outcome(o)
    }

    /// Apply a key the script answered with `action`: an ignored scroll
    /// key scrolls the paragraph (by a page of the last painted height,
    /// at least one line); everything else follows `action`.
    pub fn apply_key(&mut self, action: KeyAction, code: KeyCode, modifiers: KeyModifiers) -> (r: CardKeyOutcome)
        ensures
            spec_key_step(*old(self), action, code, modifiers, r, *final(self)),
    {
        if action == KeyAction::Ignore {
            let ctrl = modifiers.contains(KeyModifiers::control());
            let page = if self.last_inner_height >= 1 {
                self.last_inner_height
            } else {
                1
            };
            if let Some(v) = scroll_key(code, ctrl, self.scroll_offset, page) {
                self.scroll_offset = v;
                return CardKeyOutcome::Scrolled;
            }
        }
        match action {
            KeyAction::Close => CardKeyOutcome::Close,
            KeyAction::Ignore => CardKeyOutcome::Ignore,
            KeyAction::Consume => CardKeyOutcome::Consume,
        }
    }

    /// A key press: the script's answer, then [`Self::apply_key`]. The
    /// answer is the script's; whatever it is, the card steps as
    /// [`spec_key_step`] says for it.
    pub fn handle_key(&mut self, code: KeyCode, modifiers: KeyModifiers) -> (r: CardKeyOutcome)
        ensures
            exists|action: KeyAction| spec_key_step(*old(self), action, code, modifiers, r, *final(self)),
    {
        let action = self.dispatch_event(code, modifiers);
        let r = self.apply_key(action, code, modifiers);
        assert(spec_key_step(*old(self), action, code, modifiers, r, *self));
        r
    }

    /// Record the content height of the section as painted.
    pub fn set_inner_height(&mut self, height: u16)
        ensures
            final(self).last_inner_height == height,
            final(self).scroll_offset == old(self).scroll_offset,
    {
        self.last_inner_height = height;
    }

    /// Paint step of the paragraph: clamp the scroll offset against the
    /// freshly rendered line count, keep it, and return it.
    pub fn paragraph_offset(&mut self, total_lines: u16, inner_height: u16) -> (r: u16)
        ensures
            r == spec_clamp_offset(old(self).scroll_offset, total_lines, inner_height),
            final(self).scroll_offset == r,
            final(self).last_inner_height == old(self).last_inner_height,
    {
        let max_offset = total_lines.saturating_sub(inner_height);
        let mut offset = self.scroll_offset;
        if offset > max_offset {
            offset = max_offset;
        }
        self.scroll_offset = offset;
        offset
    }

    /// What the card paints now.
    pub fn view(&self, item_count: usize) -> (r: CardView)
        ensures
            r == spec_card_view(self.has_render, self.has_items, item_count as nat),
    {
        card_view(self.has_render, self.has_items, item_count)
    }

    /// The poll-tick step: `true` when the card must close now.
    pub fn poll(&self) -> (r: bool) {
        self.flag.take()
    }
}

/// Scrolling down a line and back up returns to where it started, unless
/// the paragraph was already at the last possible offset.
pub proof fn law_scroll_down_then_up(cur: u16, page: u16)
    requires
        cur < u16::MAX,
    ensures
        spec_scroll_key(KeyCode::Up, false, spec_scroll_key(KeyCode::Down, false, cur, page)->0, page) == Some(cur),
{
}

/// A page down and a page up return to where they started, unless the
/// page down hit the end of the range.
pub proof fn law_page_down_then_up(cur: u16, page: u16)
    requires
        cur + page <= u16::MAX,
    ensures
        spec_scroll_key(KeyCode::PageUp, false, spec_scroll_key(KeyCode::PageDown, false, cur, page)->0, page) == Some(cur),
{
}

/// A painted paragraph never starts past its last page, and painting
/// again changes nothing.
pub proof fn law_clamp_offset(offset: u16, total: u16, height: u16)
    ensures
        spec_clamp_offset(offset, total, height) <= offset,
        spec_clamp_offset(offset, total, height) <= if total > height { total - height } else { 0 },
        spec_clamp_offset(spec_clamp_offset(offset, total, height), total, height) == spec_clamp_offset(offset, total, height),
{
}

} // verus!
