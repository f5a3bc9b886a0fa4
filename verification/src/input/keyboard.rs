//! Keyboard input handler. Pure **translator**: raw key event →
//! `Option<AppMsg>`.
//!
//! Key routing is an ordered table of [`Stage`]s ([`routing`]). Each
//! stage produces one of {`Consumed`, `Run(cmd)`, `Pass`}; the first
//! non-`Pass` stage wins.
use vstd::prelude::*;
use crate::app_msg::{AppMsg, KeyDelivery};
use crate::frontend::UserIntent;
use crate::input::keymap::{spec_lookup, KeyMap};
use crate::keys::{KeyCode, KeyModifiers};
use crate::map::Action;

verus! {

/// One priority tier in the routing pipeline.
#[derive(Debug, Clone, Copy, PartialEq, Eq, Structural)]
pub enum Stage {
    /// Hand the key to the currently-focused surface (palette / plugin).
    FocusDelivery,
    /// Tab / Shift-Tab → cycle focus across visible plugins.
    CycleFocus,
    /// `:` → open the command palette.
    OpenPalette,
    /// Match the key against every plugin's activation binding.
    PluginActivation,
    /// Resolve against the keymap (pan / zoom / reset / …).
    KeymapFallback,
}

/// The routing pipeline, in priority order.
pub open spec fn spec_routing() -> Seq<Stage> {
    seq![Stage::FocusDelivery, Stage::CycleFocus, Stage::OpenPalette, Stage::PluginActivation, Stage::KeymapFallback]
}

/// The routing pipeline, in priority order. First non-`Pass` stage wins.
pub fn routing() -> (r: [Stage; 5])
    ensures
        r@ == spec_routing(),
{
    let r = [Stage::FocusDelivery, Stage::CycleFocus, Stage::OpenPalette, Stage::PluginActivation, Stage::KeymapFallback];
    assert(r@ =~= spec_routing());
    r
}

/// Outcome of one routing stage.
#[derive(Debug, Clone, PartialEq, Eq)]
pub enum StageOutcome {
    Consumed,
    Run(AppMsg),
    Pass,
}

/// `true` for a plain Tab; `false` for Shift-Tab / BackTab.
pub open spec fn is_forward_tab(code: KeyCode, modifiers: KeyModifiers) -> bool {
    code == KeyCode::Tab && modifiers.bits == 0
}

/// Shift-Tab, in either of the forms terminals report it.
pub open spec fn is_backward_tab(code: KeyCode, modifiers: KeyModifiers) -> bool {
    code == KeyCode::BackTab || (code == KeyCode::Tab && modifiers.has(KeyModifiers { bits: 1 }))
}

/// What one stage answers. `delivery` is what the focused surface did
/// with the key; `activation` is the tag of the plugin whose
/// activation key this is, if any; `fallback` is the keymap's answer.
pub open spec fn spec_apply_stage(
    stage: Stage,
    code: KeyCode,
    modifiers: KeyModifiers,
    delivery: KeyDelivery,
    activation: Option<String>,
    fallback: Option<UserIntent>,
) -> StageOutcome {
    match stage {
        Stage::FocusDelivery => match delivery {
            KeyDelivery::Consumed => StageOutcome::Consumed,
            KeyDelivery::Run(cmd) => StageOutcome::Run(cmd),
            KeyDelivery::Passthrough => StageOutcome::Pass,
        },
        Stage::CycleFocus => {
            if is_forward_tab(code, modifiers) || is_backward_tab(code, modifiers) {
                StageOutcome::Run(AppMsg::CycleFocus(is_forward_tab(code, modifiers)))
            } else {
                StageOutcome::Pass
            }
        },
        Stage::OpenPalette => {
            if code == KeyCode::Char(':') && modifiers.bits == 0 {
                StageOutcome::Run(AppMsg::OpenPalette)
            } else {
                StageOutcome::Pass
            }
        },
        Stage::PluginActivation => match activation {
            Some(tag) => StageOutcome::Run(AppMsg::ActivatePlugin(tag)),
            None => StageOutcome::Pass,
        },
        Stage::KeymapFallback => match fallback {
            Some(cmd) => StageOutcome::Run(AppMsg::Intent(cmd)),
            None => StageOutcome::Pass,
        },
    }
}

/// Run `stages` in order: the first stage that does not pass decides.
pub open spec fn spec_route(
    stages: Seq<Stage>,
    code: KeyCode,
    modifiers: KeyModifiers,
    delivery: KeyDelivery,
    activation: Option<String>,
    fallback: Option<UserIntent>,
) -> Option<AppMsg>
    decreases stages.len(),
{
    if stages.len() == 0 {
        None
    } else {
        match spec_apply_stage(stages[0], code, modifiers, delivery, activation, fallback) {
            StageOutcome::Consumed => None,
            StageOutcome::Run(cmd) => Some(cmd),
            StageOutcome::Pass => spec_route(stages.drop_first(), code, modifiers, delivery, activation, fallback),
        }
    }
}

/// Evaluate one routing stage.
pub fn apply_stage(
    stage: Stage,
    code: KeyCode,
    modifiers: KeyModifiers,
    delivery: &KeyDelivery,
    activation: &Option<String>,
    fallback: &Option<UserIntent>,
) -> (r: StageOutcome)
    ensures
        r == spec_apply_stage(stage, code, modifiers, *delivery, *activation, *fallback),
{
    match stage {
        Stage::FocusDelivery => match delivery {
            KeyDelivery::Consumed => StageOutcome::Consumed,
            KeyDelivery::Run(cmd) => StageOutcome::Run(cmd.duplicate()),
            KeyDelivery::Passthrough => StageOutcome::Pass,
        },
        Stage::CycleFocus => {
            let forward = code == KeyCode::Tab && modifiers.bits == 0;
            let backward = code == KeyCode::BackTab || (code == KeyCode::Tab && modifiers.contains(
                KeyModifiers::shift(),
            ));
            if forward || backward {
                StageOutcome::Run(AppMsg::CycleFocus(forward))
            } else {
                StageOutcome::Pass
            }
        },
        Stage::OpenPalette => {
            if code == KeyCode::Char(':') && modifiers.bits == 0 {
                StageOutcome::Run(AppMsg::OpenPalette)
            } else {
                StageOutcome::Pass
            }
        },
        Stage::PluginActivation => match activation {
            Some(tag) => StageOutcome::Run(AppMsg::ActivatePlugin(tag.clone())),
            None => StageOutcome::Pass,
        },
        Stage::KeymapFallback => match fallback {
            Some(cmd) => StageOutcome::Run(AppMsg::Intent(*cmd)),
            None => StageOutcome::Pass,
        },
    }
}

/// The keyboard handler: the keymap plus the `gg` sequence state.
pub struct KeyboardHandler {
    pub keymap: KeyMap,
    /// First-`g`-of-`gg` flag.
    pub pending_g: bool,
}

/// The `g` key with no modifier — the key of the `gg` sequence.
pub open spec fn is_plain_g(code: KeyCode, modifiers: KeyModifiers) -> bool {
    code == KeyCode::Char('g') && modifiers.bits == 0
}

/// What the `gg` state machine answers for a key, given whether a
/// first `g` is pending.
pub open spec fn spec_sequence_answer(
    keymap: KeyMap,
    pending: bool,
    code: KeyCode,
    modifiers: KeyModifiers,
) -> Option<UserIntent> {
    if is_plain_g(code, modifiers) {
        if pending {
            Some(UserIntent::MapAction(Action::ZoomToWorld))
        } else {
            None
        }
    } else {
        spec_lookup(keymap.bindings@, code, modifiers)
    }
}

/// The `gg` flag after a key: set by a first `g`, cleared by anything else.
pub open spec fn spec_pending_after(pending: bool, code: KeyCode, modifiers: KeyModifiers) -> bool {
    is_plain_g(code, modifiers) && !pending
}

impl KeyboardHandler {
    pub fn new(keymap: KeyMap) -> (r: Self)
        ensures
            r.keymap == keymap,
            !r.pending_g,
    {
        Self { keymap, pending_g: false }
    }

    /// Expose the keymap.
    pub fn keymap(&self) -> (r: &KeyMap)
        ensures
            *r == self.keymap,
    {
        &self.keymap
    }

    /// Advance the `gg` sequence state machine and resolve via the
    /// keymap. Returns the command to dispatch, or `None` for a no-op
    /// (mid-sequence or unbound key).
    pub fn resolve_with_sequence(&mut self, code: KeyCode, modifiers: KeyModifiers) -> (r: Option<UserIntent>)
        ensures
            r == spec_sequence_answer(old(self).keymap, old(self).pending_g, code, modifiers),
            final(self).pending_g == spec_pending_after(old(self).pending_g, code, modifiers),
            final(self).keymap == old(self).keymap,
    {
        if code == KeyCode::Char('g') && modifiers.bits == 0 {
            if self.pending_g {
                self.pending_g = false;
                return Some(UserIntent::MapAction(Action::ZoomToWorld));
            }
            self.pending_g = true;
            return None;
        }
        self.pending_g = false;
        self.keymap.resolve(code, modifiers)
    }

    /// Translate a raw key event into an optional message. `delivery`
    /// is what the focused surface did with this key (it is offered
    /// the key first); `activation` is the tag of the plugin whose
    /// activation binding this key is, if any. The `gg` sequence
    /// advances on every key, even one a higher stage consumes, so
    /// Tab or `:` between two `g` presses breaks the sequence.
    pub fn handle(
        &mut self,
        code: KeyCode,
        modifiers: KeyModifiers,
        delivery: &KeyDelivery,
        activation: &Option<String>,
    ) -> (r: Option<AppMsg>)
        ensures
            r == spec_route(
                spec_routing(),
                code,
                modifiers,
                *delivery,
                *activation,
                spec_sequence_answer(old(self).keymap, old(self).pending_g, code, modifiers),
            ),
            final(self).pending_g == spec_pending_after(old(self).pending_g, code, modifiers),
            final(self).keymap == old(self).keymap,
    {
        let fallback = self.resolve_with_sequence(code, modifiers);
        let stages = routing();
        assert(spec_routing().skip(0) =~= spec_routing());
        let mut i: usize = 0;
        while i < 5
            invariant
                i <= 5,
                self.pending_g == spec_pending_after(old(self).pending_g, code, modifiers),
                self.keymap == old(self).keymap,
                fallback == spec_sequence_answer(old(self).keymap, old(self).pending_g, code, modifiers),
                stages@ == spec_routing(),
                spec_route(spec_routing(), code, modifiers, *delivery, *activation, fallback)
                    == spec_route(spec_routing().skip(i as int), code, modifiers, *delivery, *activation, fallback),
            decreases 5 - i,
        {
            assert(spec_routing().skip(i as int)[0] == stages@[i as int]);
            match apply_stage(stages[i], code, modifiers, delivery, activation, &fallback) {
                StageOutcome::Consumed => return None,
                StageOutcome::Run(cmd) => return Some(cmd),
                StageOutcome::Pass => {},
            }
            assert(spec_routing().skip(i as int).drop_first() =~= spec_routing().skip(i + 1));
            i = i + 1;
        }
        None
    }
}

/// The routing pipeline spelled out: what the focused surface decides
/// stands; otherwise Tab / Shift-Tab cycle focus, `:` opens the
/// palette, a plugin activation key activates its plugin, and only
/// then does the keymap answer.
pub proof fn law_routing_priority(
    code: KeyCode,
    modifiers: KeyModifiers,
    delivery: KeyDelivery,
    activation: Option<String>,
    fallback: Option<UserIntent>,
)
    ensures
        spec_route(spec_routing(), code, modifiers, delivery, activation, fallback) == (match delivery {
            KeyDelivery::Consumed => None,
            KeyDelivery::Run(cmd) => Some(cmd),
            KeyDelivery::Passthrough => {
                if is_forward_tab(code, modifiers) || is_backward_tab(code, modifiers) {
                    Some(AppMsg::CycleFocus(is_forward_tab(code, modifiers)))
                } else if code == KeyCode::Char(':') && modifiers.bits == 0 {
                    Some(AppMsg::OpenPalette)
                } else if activation is Some {
                    Some(AppMsg::ActivatePlugin(activation->0))
                } else if fallback is Some {
                    Some(AppMsg::Intent(fallback->0))
                } else {
                    None
                }
            },
        }),
{
    reveal_with_fuel(spec_route, 6);
    let s = spec_routing();
    assert(s.drop_first() =~= seq![Stage::CycleFocus, Stage::OpenPalette, Stage::PluginActivation, Stage::KeymapFallback]);
    assert(s.drop_first().drop_first() =~= seq![Stage::OpenPalette, Stage::PluginActivation, Stage::KeymapFallback]);
    assert(s.drop_first().drop_first().drop_first() =~= seq![Stage::PluginActivation, Stage::KeymapFallback]);
    assert(s.drop_first().drop_first().drop_first().drop_first() =~= seq![Stage::KeymapFallback]);
    assert(s.drop_first().drop_first().drop_first().drop_first().drop_first() =~= Seq::<Stage>::empty());
}

/// Two plain `g` presses in a row, from a state with no `g` pending,
/// zoom to the whole world; the first press alone does nothing.
pub proof fn law_gg_zooms_to_world(keymap: KeyMap)
    ensures
        spec_sequence_answer(keymap, false, KeyCode::Char('g'), KeyModifiers { bits: 0 }) is None,
        spec_pending_after(false, KeyCode::Char('g'), KeyModifiers { bits: 0 }),
        spec_sequence_answer(keymap, true, KeyCode::Char('g'), KeyModifiers { bits: 0 })
            == Some(UserIntent::MapAction(Action::ZoomToWorld)),
{
}

/// Any key other than a plain `g` breaks a pending `gg` sequence.
pub proof fn law_other_key_breaks_gg(pending: bool, code: KeyCode, modifiers: KeyModifiers)
    requires
        !is_plain_g(code, modifiers),
    ensures
        !spec_pending_after(pending, code, modifiers),
{
}

} // verus!
