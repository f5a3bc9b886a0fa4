//! [`LuaWindowComponent`]: a focused panel pushed onto the compositor
//! stack by `ttymap.api.window.open(spec)`.
//!
//! Spec table fields (all optional):
//! - `name = "..."`: display label shown in the focused-footer chip
//! - `layout = { anchor, width, height?, kind? }`: panel placement
//! - `render = function() return lines end`: panel body
//! - `handle_event = function(key) return action end`: focused keys
//! - `footer_hints = { {key, label}, ... }`: focused footer hints
//!
//! The matching [`WindowHandle`](super::window_handle::WindowHandle)
//! shares this component's [`CloseFlag`]; the component honours a
//! raised flag on its next poll tick. Errors raised by the script are
//! recovered, never propagated: a buggy plugin must not take the host
//! down.
use vstd::prelude::*;
use crate::keys::{KeyCode, KeyModifiers};
use crate::lua::bridge::handle::{CallOutcome, LuaHandle, outcome_as_sequence};
use crate::lua::bridge::layout::{Placement, WindowLayout, parse_layout};
use crate::lua::bridge::parse::{
    KeyAction, ReturnFields, StyleKind, key_arg, parse_footer_hints, parse_line_value, spec_answer_action,
};
use crate::lua::bridge::window_handle::CloseFlag;
use crate::lua::value::{CallArg, LuaTable, LuaVal, table_get, table_get_string};

verus! {

/// The label a window shows: its spec's non-empty `name`, else the log
/// tag it was opened under.
pub open spec fn spec_display_name(name: Option<String>, log_tag: Seq<char>) -> Seq<char> {
    match name {
        Some(n) => if n@.len() > 0 {
            n@
        } else {
            log_tag
        },
        None => log_tag,
    }
}

/// The label a window shows, from its spec's `name` field.
pub fn display_name(name: Option<String>, log_tag: &str) -> (r: String)
    ensures
        r@ == spec_display_name(name, log_tag@),
{
    match name {
        Some(n) => if n.unicode_len() > 0 {
            n
        } else {
            log_tag.to_owned()
        },
        None => log_tag.to_owned(),
    }
}

/// The height a panel gets: the layout's, else the available height
/// less a one-cell margin on each side.
pub open spec fn spec_panel_height(layout_height: Option<u16>, outer_height: u16) -> u16 {
    match layout_height {
        Some(h) => h,
        None => if outer_height >= 2 {
            (outer_height - 2) as u16
        } else {
            0
        },
    }
}

/// A focused component backed by a Lua spec table.
pub struct LuaWindowComponent {
    /// The Lua state and the spec table.
    pub handle: LuaHandle,
    /// Shared with the window's Lua-side handle.
    pub flag: CloseFlag,
    /// User-facing label (see [`spec_display_name`]).
    pub display: String,
    /// Panel placement read from `spec.layout`.
    pub layout: WindowLayout,
    /// Whether the spec has a `render` function; marker-only windows
    /// paint no panel.
    pub has_render: bool,
    /// Static footer hints from `spec.footer_hints`.
    pub footer_hints: Vec<(String, String)>,
}

impl LuaWindowComponent {
    /// Build a window from a spec table. `log_tag` identifies the
    /// window in reports and is its label when the spec has no `name`.
    pub fn from_spec(spec: LuaTable, log_tag: &str, flag: CloseFlag) -> (r: Self)
        ensures
            r.flag == flag,
            r.handle.log_tag@ == log_tag@,
            r.handle.module == spec,
            exists|name: Option<String>| r.display@ == spec_display_name(name, log_tag@),
    {
        let name = table_get_string(&spec, "name").0.ok();
        let ghost g = name;
        let display = display_name(name, log_tag);
        assert(display@ == spec_display_name(g, log_tag@));
        let layout = parse_layout(&spec);
        let has_render = match table_get(&spec, "render").0 {
            Ok(v) => match v {
                LuaVal::Function(_) => true,
                _ => false,
            },
            Err(_) => false,
        };
        let footer_hints = parse_footer_hints(&spec);
        let handle = LuaHandle::new(spec, log_tag.to_owned());
        LuaWindowComponent { handle, flag, display, layout, has_render, footer_hints }
    }

    /// The window's label.
    pub fn name(&self) -> (r: &str)
        ensures
            r@ == self.display@,
    {
        self.display.as_str()
    }

    /// Where the compositor places the window.
    pub fn placement(&self) -> (r: Placement)
        ensures
            r == self.layout.placement,
    {
        self.layout.placement
    }

    /// The window's footer hints.
    pub fn footer_hints(&self) -> (r: &Vec<(String, String)>)
        ensures
            *r == self.footer_hints,
    {
        &self.footer_hints
    }

    /// Height of the panel inside an area `outer_height` cells tall.
    pub fn panel_height(&self, outer_height: u16) -> (r: u16)
        ensures
            r == spec_panel_height(self.layout.height, outer_height),
    {
        match self.layout.height {
            Some(h) => h,
            None => outer_height.saturating_sub(2),
        }
    }

    /// The `render()` lines as `(text, style)` spans; empty when the spec
    /// has no `render` or it raised or returned a non-table.
    pub fn render_lines(&self) -> (r: Vec<Vec<(String, StyleKind)>>)
        ensures
            forall|i: int| 0 <= i < r@.len() ==> #[trigger] r@[i]@.len() >= 1,
    {
        let mut out: Vec<Vec<(String, StyleKind)>> = Vec::new();
        match outcome_as_sequence(self.handle.try_call("render", CallArg::Unit)) {
            CallOutcome::Returned(raw) => {
                let mut raw = raw;
                while raw.len() > 0
                    invariant
                        forall|i: int| 0 <= i < out@.len() ==> #[trigger] out@[i]@.len() >= 1,
                    decreases raw@.len(),
                {
                    let v = raw.remove(0);
                    out.push(parse_line_value(v));
                }
            },
            CallOutcome::Missing | CallOutcome::Errored => {},
        }
        out
    }

    /// Run the script's `handle_event` with the key table of the press
    /// (see [`key_arg`]) and return the action it asked for: no handler
    /// ignores the key, a raising handler (or a key table that could not
    /// be built) consumes it, an answer acts as [`spec_answer_action`]
    /// says.
    pub fn dispatch_event(&self, code: KeyCode, modifiers: KeyModifiers) -> (r: KeyAction)
        ensures
            exists|a: CallOutcome<Option<ReturnFields>>| r == spec_answer_action(a),
    {
        let o = self.handle.try_call("handle_event", key_arg(code, modifiers));
        KeyAction::from_outcome(o)
    }

    /// The poll-tick step: `true` when the window must close now,
    /// because its Lua handle asked for it since the last tick.
    pub fn poll(&self) -> (r: bool) {
        self.flag.take()
    }
}

} // verus!
