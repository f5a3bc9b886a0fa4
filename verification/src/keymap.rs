//! Key binding table of the single-keymap input path — the
//! `key → Action` data used by the keyboard handler, the reserved
//! mode-transition keys and the `gg` sequence, plus the
//! `KeybindingOverrides` shape configuration uses to customise it.
use vstd::prelude::*;
use crate::command::Action;
pub use crate::input::keymap::{parse_key_binding, KeyBinding};
use crate::input::keymap::{
    all_displayable, law_set_bindings_keeps_other_commands, law_set_bindings_then_keys_for, spec_first_bound,
    spec_keys_for, spec_lookup, spec_parsed_rows, spec_set_bindings, spec_without_cmd, string_views,
};
use crate::keys::{KeyCode, KeyModifiers};

verus! {

/// One row of the table.
pub type ActionRow = (KeyBinding, Action);

/// The key → action table, plus the first-`g`-of-`gg` flag.
pub struct KeyMap {
    pub bindings: Vec<ActionRow>,
    /// First-`g`-of-`gg` flag. Held on the map so all key → `Action`
    /// translation stays in one place.
    pub pending_g: bool,
}

/// Raw keybinding overrides from the `[keymap]` section of the
/// configuration. Each field names an `Action`; the listed key strings
/// replace the default bindings for that action. Applied via
/// [`KeyMap::with_overrides`].
#[derive(Default, Clone, Debug)]
pub struct KeybindingOverrides {
    pub pan_left: Option<Vec<String>>,
    pub pan_right: Option<Vec<String>>,
    pub pan_up: Option<Vec<String>>,
    pub pan_down: Option<Vec<String>>,
    pub pan_left_fast: Option<Vec<String>>,
    pub pan_right_fast: Option<Vec<String>>,
    pub pan_up_half: Option<Vec<String>>,
    pub pan_down_half: Option<Vec<String>>,
    pub zoom_in: Option<Vec<String>>,
    pub zoom_out: Option<Vec<String>>,
    pub zoom_to_world: Option<Vec<String>>,
    pub reset_position: Option<Vec<String>>,
    pub quit: Option<Vec<String>>,
}

/// `rows` with `action` rebound to `field`'s keys when the field is set.
pub open spec fn spec_rebind(rows: Seq<ActionRow>, field: Option<Vec<String>>, action: Action) -> Seq<ActionRow> {
    match field {
        Some(keys) => spec_set_bindings(rows, action, string_views(keys@)),
        None => rows,
    }
}

/// The table after applying every set override field, in field order.
pub open spec fn spec_apply_overrides(rows: Seq<ActionRow>, o: KeybindingOverrides) -> Seq<ActionRow> {
    let r = spec_rebind(rows, o.pan_left, Action::PanLeft);
    let r = spec_rebind(r, o.pan_right, Action::PanRight);
    let r = spec_rebind(r, o.pan_up, Action::PanUp);
    let r = spec_rebind(r, o.pan_down, Action::PanDown);
    let r = spec_rebind(r, o.pan_left_fast, Action::PanLeftFast);
    let r = spec_rebind(r, o.pan_right_fast, Action::PanRightFast);
    let r = spec_rebind(r, o.pan_up_half, Action::PanUpHalf);
    let r = spec_rebind(r, o.pan_down_half, Action::PanDownHalf);
    let r = spec_rebind(r, o.zoom_in, Action::ZoomIn);
    let r = spec_rebind(r, o.zoom_out, Action::ZoomOut);
    let r = spec_rebind(r, o.zoom_to_world, Action::ZoomToWorld);
    let r = spec_rebind(r, o.reset_position, Action::ResetPosition);
    spec_rebind(r, o.quit, Action::Quit)
}

/// The built-in bindings, in table order.
pub open spec fn spec_default_rows() -> Seq<ActionRow> {
    let none = KeyModifiers { bits: 0 };
    let ctrl = KeyModifiers { bits: 2 };
    seq![
        (KeyBinding { code: KeyCode::Char('h'), modifiers: none }, Action::PanLeft),
        (KeyBinding { code: KeyCode::Left, modifiers: none }, Action::PanLeft),
        (KeyBinding { code: KeyCode::Char('l'), modifiers: none }, Action::PanRight),
        (KeyBinding { code: KeyCode::Right, modifiers: none }, Action::PanRight),
        (KeyBinding { code: KeyCode::Char('k'), modifiers: none }, Action::PanUp),
        (KeyBinding { code: KeyCode::Up, modifiers: none }, Action::PanUp),
        (KeyBinding { code: KeyCode::Char('j'), modifiers: none }, Action::PanDown),
        (KeyBinding { code: KeyCode::Down, modifiers: none }, Action::PanDown),
        (KeyBinding { code: KeyCode::Char('b'), modifiers: none }, Action::PanLeftFast),
        (KeyBinding { code: KeyCode::Char('w'), modifiers: none }, Action::PanRightFast),
        (KeyBinding { code: KeyCode::Char('u'), modifiers: ctrl }, Action::PanUpHalf),
        (KeyBinding { code: KeyCode::Char('d'), modifiers: ctrl }, Action::PanDownHalf),
        (KeyBinding { code: KeyCode::Char('a'), modifiers: none }, Action::ZoomIn),
        (KeyBinding { code: KeyCode::Char('+'), modifiers: none }, Action::ZoomIn),
        (KeyBinding { code: KeyCode::Char('z'), modifiers: none }, Action::ZoomOut),
        (KeyBinding { code: KeyCode::Char('-'), modifiers: none }, Action::ZoomOut),
        (KeyBinding { code: KeyCode::Char('0'), modifiers: none }, Action::ResetPosition),
        (KeyBinding { code: KeyCode::Char('q'), modifiers: none }, Action::Quit),
    ]
}

/// The reserved mode-transition key a bare key stands for, if any:
/// `/` opens search, `?` toggles help, `i` toggles the wiki panel.
pub open spec fn spec_reserved(code: KeyCode) -> Option<Action> {
    if code == KeyCode::Char('/') {
        Some(Action::SearchOpen)
    } else if code == KeyCode::Char('?') {
        Some(Action::HelpToggle)
    } else if code == KeyCode::Char('i') {
        Some(Action::WikiToggle)
    } else {
        None
    }
}

/// What [`KeyMap::resolve`] answers for a key, given the `gg` flag.
pub open spec fn spec_resolve(rows: Seq<ActionRow>, pending: bool, code: KeyCode, modifiers: KeyModifiers) -> Action {
    if code == KeyCode::Char('g') && modifiers.bits == 0 {
        if pending {
            Action::ZoomToWorld
        } else {
            Action::Nothing
        }
    } else if modifiers.bits == 0 && spec_reserved(code) is Some {
        spec_reserved(code)->0
    } else {
        match spec_lookup(rows, code, modifiers) {
            Some(a) => a,
            None => Action::Nothing,
        }
    }
}

fn row(code: KeyCode, ctrl: bool, action: Action) -> (r: ActionRow)
    ensures
        r == (KeyBinding { code, modifiers: KeyModifiers { bits: if ctrl { 2 } else { 0 } } }, action),
{
    let modifiers = if ctrl { KeyModifiers::control() } else { KeyModifiers::none() };
    (KeyBinding { code, modifiers }, action)
}

impl Default for KeyMap {
    fn default() -> (r: KeyMap)
        ensures
            r.bindings@ == spec_default_rows(),
            !r.pending_g,
    {
        let bindings = vec![
            row(KeyCode::Char('h'), false, Action::PanLeft),
            row(KeyCode::Left, false, Action::PanLeft),
            row(KeyCode::Char('l'), false, Action::PanRight),
            row(KeyCode::Right, false, Action::PanRight),
            row(KeyCode::Char('k'), false, Action::PanUp),
            row(KeyCode::Up, false, Action::PanUp),
            row(KeyCode::Char('j'), false, Action::PanDown),
            row(KeyCode::Down, false, Action::PanDown),
            row(KeyCode::Char('b'), false, Action::PanLeftFast),
            row(KeyCode::Char('w'), false, Action::PanRightFast),
            row(KeyCode::Char('u'), true, Action::PanUpHalf),
            row(KeyCode::Char('d'), true, Action::PanDownHalf),
            row(KeyCode::Char('a'), false, Action::ZoomIn),
            row(KeyCode::Char('+'), false, Action::ZoomIn),
            row(KeyCode::Char('z'), false, Action::ZoomOut),
            row(KeyCode::Char('-'), false, Action::ZoomOut),
            row(KeyCode::Char('0'), false, Action::ResetPosition),
            row(KeyCode::Char('q'), false, Action::Quit),
        ];
        let km = KeyMap { bindings, pending_g: false };
        assert(km.bindings@ =~= spec_default_rows());
        km
    }
}

impl KeyMap {
    /// Look up the action for a key event. Returns `None` if no
    /// binding matches; the first matching row wins; shift is
    /// ignored. Stateless — ignores sequence state.
    pub fn lookup(&self, code: KeyCode, modifiers: KeyModifiers) -> (r: Option<&Action>)
        ensures
            match r {
                Some(a) => spec_lookup(self.bindings@, code, modifiers) == Some(*a),
                None => spec_lookup(self.bindings@, code, modifiers) is None,
            },
    {
        let clean = modifiers.without_shift();
        assert(self.bindings@.skip(0) =~= self.bindings@);
        let mut i: usize = 0;
        while i < self.bindings.len()
            invariant
                i <= self.bindings@.len(),
                clean == modifiers.spec_without_shift(),
                spec_lookup(self.bindings@, code, modifiers)
                    == spec_first_bound(self.bindings@.skip(i as int), code, clean),
            decreases self.bindings@.len() - i,
        {
            assert(self.bindings@.skip(i as int)[0] == self.bindings@[i as int]);
            if self.bindings[i].0.code == code && self.bindings[i].0.modifiers == clean {
                return Some(&self.bindings[i].1);
            }
            assert(self.bindings@.skip(i as int).drop_first() =~= self.bindings@.skip(i + 1));
            i = i + 1;
        }
        None
    }

    /// Resolve a key event to an `Action`. Handles the `gg` sequence
    /// and the reserved mode-transition keys (`/`, `?`, `i`) ahead of
    /// user-configurable bindings, so configuration cannot shadow
    /// them. Returns `Action::Nothing` while mid-sequence or when the
    /// key has no binding.
    pub fn resolve(&mut self, code: KeyCode, modifiers: KeyModifiers) -> (r: Action)
        ensures
            r == spec_resolve(old(self).bindings@, old(self).pending_g, code, modifiers),
            final(self).pending_g == (code == KeyCode::Char('g') && modifiers.bits == 0 && !old(self).pending_g),
            final(self).bindings == old(self).bindings,
    {
        if code == KeyCode::Char('g') && modifiers.bits == 0 {
            if self.pending_g {
                self.pending_g = false;
                return Action::ZoomToWorld;
            }
            self.pending_g = true;
            return Action::Nothing;
        }
        self.pending_g = false;
        if modifiers.bits == 0 {
            match code {
                KeyCode::Char('/') => return Action::SearchOpen,
                KeyCode::Char('?') => return Action::HelpToggle,
                KeyCode::Char('i') => return Action::WikiToggle,
                _ => {},
            }
        }
        match self.lookup(code, modifiers) {
            Some(a) => *a,
            None => Action::Nothing,
        }
    }

    /// Replace every existing binding for `action` with the supplied
    /// list of key strings (e.g. `["h", "Left"]`). Invalid key strings
    /// are skipped.
    pub fn set_bindings(&mut self, action: Action, keys: &[String])
        ensures
            final(self).bindings@ == spec_set_bindings(old(self).bindings@, action, string_views(keys@)),
            final(self).pending_g == old(self).pending_g,
    {
        let ghost rows = self.bindings@;
        let mut kept: Vec<ActionRow> = Vec::new();
        let mut i: usize = 0;
        while i < self.bindings.len()
            invariant
                rows == self.bindings@,
                i <= rows.len(),
                kept@ == spec_without_cmd(rows.take(i as int), action),
            decreases rows.len() - i,
        {
            assert(rows.take(i + 1).drop_last() =~= rows.take(i as int));
            if self.bindings[i].1 != action {
                kept.push(self.bindings[i]);
            }
            i = i + 1;
        }
        assert(rows.take(rows.len() as int) =~= rows);
        let ghost base = kept@;
        let mut j: usize = 0;
        while j < keys.len()
            invariant
                j <= keys@.len(),
                base == spec_without_cmd(rows, action),
                kept@ == base + spec_parsed_rows(string_views(keys@).take(j as int), action),
            decreases keys@.len() - j,
        {
            assert(string_views(keys@).take(j + 1).drop_last() =~= string_views(keys@).take(j as int));
            match parse_key_binding(keys[j].as_str()) {
                Some(b) => {
                    kept.push((b, action));
                },
                None => {},
            }
            j = j + 1;
            assert(kept@ =~= base + spec_parsed_rows(string_views(keys@).take(j as int), action));
        }
        assert(string_views(keys@).take(keys@.len() as int) =~= string_views(keys@));
        self.bindings = kept;
    }

    /// Apply one override field: rebind `action` when the field is set.
    fn rebind(&mut self, field: &Option<Vec<String>>, action: Action)
        ensures
            final(self).bindings@ == spec_rebind(old(self).bindings@, *field, action),
            final(self).pending_g == old(self).pending_g,
    {
        match field {
            Some(keys) => self.set_bindings(action, keys.as_slice()),
            None => {},
        }
    }

    /// Default bindings with user `[keymap]` overrides applied on top.
    pub fn with_overrides(overrides: &KeybindingOverrides) -> (r: KeyMap)
        ensures
            r.bindings@ == spec_apply_overrides(spec_default_rows(), *overrides),
            !r.pending_g,
    {
        let mut km = KeyMap::default();
        km.rebind(&overrides.pan_left, Action::PanLeft);
        km.rebind(&overrides.pan_right, Action::PanRight);
        km.rebind(&overrides.pan_up, Action::PanUp);
        km.rebind(&overrides.pan_down, Action::PanDown);
        km.rebind(&overrides.pan_left_fast, Action::PanLeftFast);
        km.rebind(&overrides.pan_right_fast, Action::PanRightFast);
        km.rebind(&overrides.pan_up_half, Action::PanUpHalf);
        km.rebind(&overrides.pan_down_half, Action::PanDownHalf);
        km.rebind(&overrides.zoom_in, Action::ZoomIn);
        km.rebind(&overrides.zoom_out, Action::ZoomOut);
        km.rebind(&overrides.zoom_to_world, Action::ZoomToWorld);
        km.rebind(&overrides.reset_position, Action::ResetPosition);
        km.rebind(&overrides.quit, Action::Quit);
        km
    }
}

/// The reserved keys answer before any binding: a table that binds
/// `/`, `?` or `i` to something else still opens search, toggles help
/// or toggles the wiki panel, and configuration cannot shadow them.
pub proof fn law_reserved_keys_win(rows: Seq<ActionRow>, pending: bool, c: char)
    requires
        c == '/' || c == '?' || c == 'i',
    ensures
        spec_resolve(rows, pending, KeyCode::Char(c), KeyModifiers { bits: 0 })
            == spec_reserved(KeyCode::Char(c))->0,
{
}

/// No override set.
pub open spec fn spec_no_overrides() -> KeybindingOverrides {
    KeybindingOverrides {
        pan_left: None,
        pan_right: None,
        pan_up: None,
        pan_down: None,
        pan_left_fast: None,
        pan_right_fast: None,
        pan_up_half: None,
        pan_down_half: None,
        zoom_in: None,
        zoom_out: None,
        zoom_to_world: None,
        reset_position: None,
        quit: None,
    }
}

/// Setting one override field rebinds the action the field is named
/// after, and only it: `keys_for` that action lists exactly the keys
/// given (when they all parse), and every other action keeps its
/// default keys.
proof fn lemma_one_override(o: KeybindingOverrides, a: Action, keys: Vec<String>)
    requires
        all_displayable(string_views(keys@)),
        spec_apply_overrides(spec_default_rows(), o) == spec_set_bindings(spec_default_rows(), a, string_views(keys@)),
    ensures
        spec_keys_for(spec_apply_overrides(spec_default_rows(), o), a) == string_views(keys@),
        forall|b: Action| b != a ==> #[trigger] spec_keys_for(spec_apply_overrides(spec_default_rows(), o), b)
            == spec_keys_for(spec_default_rows(), b),
{
    law_set_bindings_then_keys_for(spec_default_rows(), a, string_views(keys@));
    assert forall|b: Action| b != a implies #[trigger] spec_keys_for(spec_apply_overrides(spec_default_rows(), o), b)
        == spec_keys_for(spec_default_rows(), b) by {
        law_set_bindings_keeps_other_commands(spec_default_rows(), a, string_views(keys@), b);
    }
}

/// Each `[keymap]` override field rebinds the action it is named after:
/// with only that field set, the action's keys are exactly the listed
/// ones (when they all parse) and every other action keeps its default
/// keys.
pub proof fn law_override_fields_rebind_their_own_action(keys: Vec<String>)
    requires
        all_displayable(string_views(keys@)),
    ensures
        spec_keys_for(spec_apply_overrides(spec_default_rows(), KeybindingOverrides { pan_left: Some(keys), ..spec_no_overrides() }), Action::PanLeft) == string_views(keys@),
        forall|b: Action| b != Action::PanLeft ==> spec_keys_for(spec_apply_overrides(spec_default_rows(), KeybindingOverrides { pan_left: Some(keys), ..spec_no_overrides() }), b)
            == #[trigger] spec_keys_for(spec_default_rows(), b),
        spec_keys_for(spec_apply_overrides(spec_default_rows(), KeybindingOverrides { pan_right: Some(keys), ..spec_no_overrides() }), Action::PanRight) == string_views(keys@),
        forall|b: Action| b != Action::PanRight ==> spec_keys_for(spec_apply_overrides(spec_default_rows(), KeybindingOverrides { pan_right: Some(keys), ..spec_no_overrides() }), b)
            == #[trigger] spec_keys_for(spec_default_rows(), b),
        spec_keys_for(spec_apply_overrides(spec_default_rows(), KeybindingOverrides { pan_up: Some(keys), ..spec_no_overrides() }), Action::PanUp) == string_views(keys@),
        forall|b: Action| b != Action::PanUp ==> spec_keys_for(spec_apply_overrides(spec_default_rows(), KeybindingOverrides { pan_up: Some(keys), ..spec_no_overrides() }), b)
            == #[trigger] spec_keys_for(spec_default_rows(), b),
        spec_keys_for(spec_apply_overrides(spec_default_rows(), KeybindingOverrides { pan_down: Some(keys), ..spec_no_overrides() }), Action::PanDown) == string_views(keys@),
        forall|b: Action| b != Action::PanDown ==> spec_keys_for(spec_apply_overrides(spec_default_rows(), KeybindingOverrides { pan_down: Some(keys), ..spec_no_overrides() }), b)
            == #[trigger] spec_keys_for(spec_default_rows(), b),
        spec_keys_for(spec_apply_overrides(spec_default_rows(), KeybindingOverrides { pan_left_fast: Some(keys), ..spec_no_overrides() }), Action::PanLeftFast) == string_views(keys@),
        forall|b: Action| b != Action::PanLeftFast ==> spec_keys_for(spec_apply_overrides(spec_default_rows(), KeybindingOverrides { pan_left_fast: Some(keys), ..spec_no_overrides() }), b)
            == #[trigger] spec_keys_for(spec_default_rows(), b),
        spec_keys_for(spec_apply_overrides(spec_default_rows(), KeybindingOverrides { pan_right_fast: Some(keys), ..spec_no_overrides() }), Action::PanRightFast) == string_views(keys@),
        forall|b: Action| b != Action::PanRightFast ==> spec_keys_for(spec_apply_overrides(spec_default_rows(), KeybindingOverrides { pan_right_fast: Some(keys), ..spec_no_overrides() }), b)
            == #[trigger] spec_keys_for(spec_default_rows(), b),
        spec_keys_for(spec_apply_overrides(spec_default_rows(), KeybindingOverrides { pan_up_half: Some(keys), ..spec_no_overrides() }), Action::PanUpHalf) == string_views(keys@),
        forall|b: Action| b != Action::PanUpHalf ==> spec_keys_for(spec_apply_overrides(spec_default_rows(), KeybindingOverrides { pan_up_half: Some(keys), ..spec_no_overrides() }), b)
            == #[trigger] spec_keys_for(spec_default_rows(), b),
        spec_keys_for(spec_apply_overrides(spec_default_rows(), KeybindingOverrides { pan_down_half: Some(keys), ..spec_no_overrides() }), Action::PanDownHalf) == string_views(keys@),
        forall|b: Action| b != Action::PanDownHalf ==> spec_keys_for(spec_apply_overrides(spec_default_rows(), KeybindingOverrides { pan_down_half: Some(keys), ..spec_no_overrides() }), b)
            == #[trigger] spec_keys_for(spec_default_rows(), b),
        spec_keys_for(spec_apply_overrides(spec_default_rows(), KeybindingOverrides { zoom_in: Some(keys), ..spec_no_overrides() }), Action::ZoomIn) == string_views(keys@),
        forall|b: Action| b != Action::ZoomIn ==> spec_keys_for(spec_apply_overrides(spec_default_rows(), KeybindingOverrides { zoom_in: Some(keys), ..spec_no_overrides() }), b)
            == #[trigger] spec_keys_for(spec_default_rows(), b),
        spec_keys_for(spec_apply_overrides(spec_default_rows(), KeybindingOverrides { zoom_out: Some(keys), ..spec_no_overrides() }), Action::ZoomOut) == string_views(keys@),
        forall|b: Action| b != Action::ZoomOut ==> spec_keys_for(spec_apply_overrides(spec_default_rows(), KeybindingOverrides { zoom_out: Some(keys), ..spec_no_overrides() }), b)
            == #[trigger] spec_keys_for(spec_default_rows(), b),
        spec_keys_for(spec_apply_overrides(spec_default_rows(), KeybindingOverrides { zoom_to_world: Some(keys), ..spec_no_overrides() }), Action::ZoomToWorld) == string_views(keys@),
        forall|b: Action| b != Action::ZoomToWorld ==> spec_keys_for(spec_apply_overrides(spec_default_rows(), KeybindingOverrides { zoom_to_world: Some(keys), ..spec_no_overrides() }), b)
            == #[trigger] spec_keys_for(spec_default_rows(), b),
        spec_keys_for(spec_apply_overrides(spec_default_rows(), KeybindingOverrides { reset_position: Some(keys), ..spec_no_overrides() }), Action::ResetPosition) == string_views(keys@),
        forall|b: Action| b != Action::ResetPosition ==> spec_keys_for(spec_apply_overrides(spec_default_rows(), KeybindingOverrides { reset_position: Some(keys), ..spec_no_overrides() }), b)
            == #[trigger] spec_keys_for(spec_default_rows(), b),
        spec_keys_for(spec_apply_overrides(spec_default_rows(), KeybindingOverrides { quit: Some(keys), ..spec_no_overrides() }), Action::Quit) == string_views(keys@),
        forall|b: Action| b != Action::Quit ==> spec_keys_for(spec_apply_overrides(spec_default_rows(), KeybindingOverrides { quit: Some(keys), ..spec_no_overrides() }), b)
            == #[trigger] spec_keys_for(spec_default_rows(), b),
{
    lemma_one_override(KeybindingOverrides { pan_left: Some(keys), ..spec_no_overrides() }, Action::PanLeft, keys);
    lemma_one_override(KeybindingOverrides { pan_right: Some(keys), ..spec_no_overrides() }, Action::PanRight, keys);
    lemma_one_override(KeybindingOverrides { pan_up: Some(keys), ..spec_no_overrides() }, Action::PanUp, keys);
    lemma_one_override(KeybindingOverrides { pan_down: Some(keys), ..spec_no_overrides() }, Action::PanDown, keys);
    lemma_one_override(KeybindingOverrides { pan_left_fast: Some(keys), ..spec_no_overrides() }, Action::PanLeftFast, keys);
    lemma_one_override(KeybindingOverrides { pan_right_fast: Some(keys), ..spec_no_overrides() }, Action::PanRightFast, keys);
    lemma_one_override(KeybindingOverrides { pan_up_half: Some(keys), ..spec_no_overrides() }, Action::PanUpHalf, keys);
    lemma_one_override(KeybindingOverrides { pan_down_half: Some(keys), ..spec_no_overrides() }, Action::PanDownHalf, keys);
    lemma_one_override(KeybindingOverrides { zoom_in: Some(keys), ..spec_no_overrides() }, Action::ZoomIn, keys);
    lemma_one_override(KeybindingOverrides { zoom_out: Some(keys), ..spec_no_overrides() }, Action::ZoomOut, keys);
    lemma_one_override(KeybindingOverrides { zoom_to_world: Some(keys), ..spec_no_overrides() }, Action::ZoomToWorld, keys);
    lemma_one_override(KeybindingOverrides { reset_position: Some(keys), ..spec_no_overrides() }, Action::ResetPosition, keys);
    lemma_one_override(KeybindingOverrides { quit: Some(keys), ..spec_no_overrides() }, Action::Quit, keys);
}

} // verus!
