//! Loading one plugin script: run it once in a fresh Lua state whose
//! `ttymap` global captures the script's `register_palette_command`,
//! `register_keybind` and `on_event` calls, then wire what it declared
//! into the host.
//!
//! The capturers do not run any callback: each call is checked and
//! recorded, in order. A call that fails its check raises a Lua error,
//! which aborts the script and fails the load.
use vstd::prelude::*;
use crate::keys::{KeyCode, KeyModifiers};
use crate::lua::api::{check_event_name, keybind_char, palette_command_fields};
use crate::lua::register::{CapturedSummary, PluginKind, RegistrationPlan, check_registration, plan_registration};
use crate::lua::ttymap::{LuaHostShared, PluginEntry};
use crate::lua::value::{LuaFunction, error_text, exec_chunk, install_capture, new_lua, take_captured};
use crate::input::keymap::string_views;

verus! {

/// One `ttymap.register_palette_command(spec)` call.
pub struct PaletteCommandSpec {
    pub label: String,
    pub hint: String,
    pub invoke: LuaFunction,
}

/// One `ttymap.register_keybind(key, callback)` call.
pub struct KeybindSpec {
    pub key: char,
    pub callback: LuaFunction,
}

/// One `ttymap.on_event(name, fn)` call.
pub struct EventSubscription {
    pub event_name: String,
    pub callback: LuaFunction,
}

/// Everything one script's setup run declared, in call order.
pub struct CapturedRegistration {
    pub palette_commands: Vec<PaletteCommandSpec>,
    pub keybinds: Vec<KeybindSpec>,
    pub event_subscriptions: Vec<EventSubscription>,
}

impl CapturedRegistration {
    /// Nothing captured yet.
    pub fn new() -> (r: Self)
        ensures
            r.palette_commands@.len() == 0,
            r.keybinds@.len() == 0,
            r.event_subscriptions@.len() == 0,
    {
        CapturedRegistration { palette_commands: Vec::new(), keybinds: Vec::new(), event_subscriptions: Vec::new() }
    }
}

/// `ttymap.register_palette_command(spec)`: record a palette row from
/// the spec's `label`, `hint` and `invoke` fields. The label and the
/// invoke function are required (the error is raised to the script and
/// nothing is recorded); the hint defaults to the empty string.
pub fn capture_palette_command(
    c: &mut CapturedRegistration,
    label: Option<String>,
    hint: Option<String>,
    invoke: Option<LuaFunction>,
) -> (r: Result<(), String>)
    ensures
        r is Ok <==> (label is Some && invoke is Some),
        r is Err ==> *final(c) == *old(c),
        r matches Err(msg) ==> (label is None && msg@ == "ttymap.register_palette_command: spec.label is required"@)
            || (label is Some && msg@ == "ttymap.register_palette_command: spec.invoke (a function) is required"@),
        r is Ok ==> {
            &&& final(c).keybinds == old(c).keybinds
            &&& final(c).event_subscriptions == old(c).event_subscriptions
            &&& final(c).palette_commands@.len() == old(c).palette_commands@.len() + 1
            &&& final(c).palette_commands@.drop_last() == old(c).palette_commands@
            &&& Some(final(c).palette_commands@.last().label) == label
            &&& final(c).palette_commands@.last().hint@ == (match hint {
                Some(h) => h@,
                None => Seq::<char>::empty(),
            })
            &&& Some(final(c).palette_commands@.last().invoke) == invoke
        },
{
    let has_invoke = match &invoke {
        Some(_) => true,
        None => false,
    };
    match palette_command_fields(label, hint, has_invoke) {
        Err(msg) => Err(msg),
        Ok((l, h)) => match invoke {
            Some(f) => {
                c.palette_commands.push(PaletteCommandSpec { label: l, hint: h, invoke: f });
                assert(c.palette_commands@.drop_last() =~= old(c).palette_commands@);
                Ok(())
            },
            None => Err("ttymap.register_palette_command: spec.invoke (a function) is required".to_owned()),
        },
    }
}

/// `ttymap.register_keybind(key, callback)`: record a keybind on the
/// first character of `key`; an empty key is an error raised to the
/// script, and nothing is recorded.
pub fn capture_keybind(c: &mut CapturedRegistration, key: &str, callback: LuaFunction) -> (r: Result<(), String>)
    ensures
        r is Ok <==> key@.len() > 0,
        r is Err ==> *final(c) == *old(c),
        r matches Err(msg) ==> msg@ == "ttymap.register_keybind: key must be a non-empty string"@,
        r is Ok ==> {
            &&& final(c).palette_commands == old(c).palette_commands
            &&& final(c).event_subscriptions == old(c).event_subscriptions
            &&& final(c).keybinds@ == old(c).keybinds@.push(KeybindSpec { key: key@[0], callback })
        },
{
    match keybind_char(key) {
        Err(msg) => Err(msg),
        Ok(k) => {
            c.keybinds.push(KeybindSpec { key: k, callback });
            Ok(())
        },
    }
}

/// `ttymap.on_event(name, fn)`: record a subscription to `name`; an
/// empty name is an error raised to the script, and nothing is
/// recorded.
pub fn capture_event(c: &mut CapturedRegistration, name: String, callback: LuaFunction) -> (r: Result<(), String>)
    ensures
        r is Ok <==> name@.len() > 0,
        r is Err ==> *final(c) == *old(c),
        r matches Err(msg) ==> msg@ == "ttymap.on_event: event name must be a non-empty string"@,
        r is Ok ==> {
            &&& final(c).palette_commands == old(c).palette_commands
            &&& final(c).keybinds == old(c).keybinds
            &&& final(c).event_subscriptions@ == old(c).event_subscriptions@.push(
                EventSubscription { event_name: name, callback },
            )
        },
{
    match check_event_name(name.as_str()) {
        Err(msg) => Err(msg),
        Ok(()) => {
            c.event_subscriptions.push(EventSubscription { event_name: name, callback });
            Ok(())
        },
    }
}

/// `ttymap.api.frame.on_tick(fn)`: sugar for `ttymap.on_event("tick",
/// fn)`.
pub fn capture_tick(c: &mut CapturedRegistration, callback: LuaFunction)
    ensures
        final(c).palette_commands == old(c).palette_commands,
        final(c).keybinds == old(c).keybinds,
        final(c).event_subscriptions@.len() == old(c).event_subscriptions@.len() + 1,
        final(c).event_subscriptions@.drop_last() == old(c).event_subscriptions@,
        final(c).event_subscriptions@.last().event_name@ == "tick"@,
        final(c).event_subscriptions@.last().callback == callback,
{
    let name = "tick".to_owned();
    proof {
        reveal_strlit("tick");
    }
    let _ = capture_event(c, name, callback);
    assert(c.event_subscriptions@.drop_last() =~= old(c).event_subscriptions@);
}

/// A keybind activation wired for a plugin.
pub struct Activation {
    pub plugin: String,
    pub code: KeyCode,
    pub modifiers: KeyModifiers,
    pub callback: LuaFunction,
}

/// A palette row wired for a plugin.
pub struct PaletteRow {
    pub plugin: String,
    pub label: String,
    pub hint: String,
    pub invoke: LuaFunction,
}

/// An event subscription wired for a plugin.
pub struct Subscriber {
    pub plugin: String,
    pub event_name: String,
    pub callback: LuaFunction,
}

/// What the host activates from the loaded plugins, in load order.
pub struct Registrar {
    pub activations: Vec<Activation>,
    pub palette_rows: Vec<PaletteRow>,
    pub subscribers: Vec<Subscriber>,
}

impl Registrar {
    /// Nothing registered yet.
    pub fn new() -> (r: Self)
        ensures
            r.activations@.len() == 0,
            r.palette_rows@.len() == 0,
            r.subscribers@.len() == 0,
    {
        Registrar { activations: Vec::new(), palette_rows: Vec::new(), subscribers: Vec::new() }
    }
}

/// The registrar after wiring plugin `name` by `plan` from what it
/// captured: nothing when it does not load; otherwise one activation per
/// keybind, one palette row per palette command and one subscriber per
/// `on_event` call are appended, in order, after what was there.
pub open spec fn spec_wired(name: Seq<char>, plan: Option<RegistrationPlan>, cap: CapturedRegistration, before: Registrar, after: Registrar) -> bool {
    match plan {
        None => after == before,
        Some(p) => {
            let na = before.activations@.len();
            let np = before.palette_rows@.len();
            let ns = before.subscribers@.len();
            &&& after.activations@.len() == na + p.activations@.len()
            &&& after.activations@.take(na as int) == before.activations@
            &&& forall|i: int| 0 <= i < p.activations@.len() ==> {
                let a = #[trigger] after.activations@[na + i];
                &&& a.plugin@ == name
                &&& (a.code, a.modifiers) == p.activations@[i]
                &&& a.callback == cap.keybinds@[i].callback
            }
            &&& after.palette_rows@.len() == np + p.palette_labels@.len()
            &&& after.palette_rows@.take(np as int) == before.palette_rows@
            &&& forall|i: int| 0 <= i < p.palette_labels@.len() ==> {
                let row = #[trigger] after.palette_rows@[np + i];
                &&& row.plugin@ == name
                &&& row.label@ == p.palette_labels@[i]@
                &&& row.hint == cap.palette_commands@[i].hint
                &&& row.invoke == cap.palette_commands@[i].invoke
            }
            &&& after.subscribers@.len() == ns + cap.event_subscriptions@.len()
            &&& after.subscribers@.take(ns as int) == before.subscribers@
            &&& forall|i: int| 0 <= i < cap.event_subscriptions@.len() ==> {
                let s = #[trigger] after.subscribers@[ns + i];
                &&& s.plugin@ == name
                &&& s.event_name == cap.event_subscriptions@[i].event_name
                &&& s.callback == cap.event_subscriptions@[i].callback
            }
        },
    }
}

/// The help rows after wiring a plugin by `plan`: its help row, if it
/// has one, is appended.
pub open spec fn spec_help_rows(plan: Option<RegistrationPlan>, before: Seq<PluginEntry>) -> Seq<PluginEntry> {
    match plan {
        Some(p) => match p.help_entry {
            Some(e) => before.push(e),
            None => before,
        },
        None => before,
    }
}

/// Wire plugin `name` into the host as `plan` says, taking the callbacks
/// from what it captured (see [`spec_wired`] and [`spec_help_rows`]).
pub fn apply_plan(
    name: &str,
    plan: Option<RegistrationPlan>,
    cap: CapturedRegistration,
    shared: &mut LuaHostShared,
    reg: &mut Registrar,
)
    requires
        plan matches Some(p) ==> p.activations@.len() == cap.keybinds@.len()
            && p.palette_labels@.len() == cap.palette_commands@.len(),
    ensures
        spec_wired(name@, plan, cap, *old(reg), *final(reg)),
        final(shared).palette_entries@ == spec_help_rows(plan, old(shared).palette_entries@),
        final(shared).attribution == old(shared).attribution,
        final(shared).geoip_endpoint == old(shared).geoip_endpoint,
        final(shared).keymap_entries == old(shared).keymap_entries,
{
    let p = match plan {
        None => return,
        Some(p) => p,
    };
    let ghost gp = p;
    let ghost gcap = cap;
    let RegistrationPlan { help_entry, activations, palette_labels } = p;
    let CapturedRegistration { palette_commands, keybinds, event_subscriptions } = cap;
    let ghost reg0 = *reg;
    let na = reg.activations.len();
    let np = reg.palette_rows.len();
    let ns = reg.subscribers.len();
    let mut acts = activations;
    let mut keys = keybinds;
    let mut i: usize = 0;
    assert(acts@.len() == acts.len());
    while acts.len() > 0
        invariant
            acts@.len() == keys@.len(),
            i + acts@.len() == gp.activations@.len(),
            acts@ == gp.activations@.skip(i as int),
            keys@ == gcap.keybinds@.skip(i as int),
            gp.activations@.len() == gcap.keybinds@.len(),
            gp.activations@.len() <= usize::MAX,
            reg.activations@.len() == na + i,
            reg.activations@.take(na as int) == reg0.activations@,
            forall|j: int| 0 <= j < i ==> {
                let a = #[trigger] reg.activations@[na + j];
                &&& a.plugin@ == name@
                &&& (a.code, a.modifiers) == gp.activations@[j]
                &&& a.callback == gcap.keybinds@[j].callback
            },
            reg.palette_rows == reg0.palette_rows,
            reg.subscribers == reg0.subscribers,
        decreases acts@.len(),
    {
        let ghost a0 = acts@;
        let ghost k0 = keys@;
        let (code, modifiers) = acts.remove(0);
        let kb = keys.remove(0);
        assert(a0.drop_first() =~= acts@);
        assert(k0.drop_first() =~= keys@);
        assert(gp.activations@.skip(i + 1) =~= a0.drop_first());
        assert(gcap.keybinds@.skip(i + 1) =~= k0.drop_first());
        reg.activations.push(Activation { plugin: name.to_owned(), code, modifiers, callback: kb.callback });
        i = i + 1;
    }
    let ghost reg1 = *reg;
    let mut labels = palette_labels;
    let mut cmds = palette_commands;
    let mut j: usize = 0;
    assert(labels@.len() == labels.len());
    while labels.len() > 0
        invariant
            labels@.len() == cmds@.len(),
            j + labels@.len() == gp.palette_labels@.len(),
            labels@ == gp.palette_labels@.skip(j as int),
            cmds@ == gcap.palette_commands@.skip(j as int),
            gp.palette_labels@.len() == gcap.palette_commands@.len(),
            gp.palette_labels@.len() <= usize::MAX,
            reg.palette_rows@.len() == np + j,
            reg.palette_rows@.take(np as int) == reg0.palette_rows@,
            forall|k: int| 0 <= k < j ==> {
                let row = #[trigger] reg.palette_rows@[np + k];
                &&& row.plugin@ == name@
                &&& row.label@ == gp.palette_labels@[k]@
                &&& row.hint == gcap.palette_commands@[k].hint
                &&& row.invoke == gcap.palette_commands@[k].invoke
            },
            reg.activations == reg1.activations,
            reg.subscribers == reg0.subscribers,
        decreases labels@.len(),
    {
        let ghost l0 = labels@;
        let ghost c0 = cmds@;
        let label = labels.remove(0);
        let cmd = cmds.remove(0);
        assert(l0.drop_first() =~= labels@);
        assert(c0.drop_first() =~= cmds@);
        assert(gp.palette_labels@.skip(j + 1) =~= l0.drop_first());
        assert(gcap.palette_commands@.skip(j + 1) =~= c0.drop_first());
        reg.palette_rows.push(PaletteRow { plugin: name.to_owned(), label, hint: cmd.hint, invoke: cmd.invoke });
        j = j + 1;
    }
    let ghost reg2 = *reg;
    let mut subs = event_subscriptions;
    let mut k: usize = 0;
    assert(subs@.len() == subs.len());
    while subs.len() > 0
        invariant
            k + subs@.len() == gcap.event_subscriptions@.len(),
            gcap.event_subscriptions@.len() <= usize::MAX,
            subs@ == gcap.event_subscriptions@.skip(k as int),
            reg.activations == reg2.activations,
            reg.palette_rows == reg2.palette_rows,
            reg.subscribers@.len() == ns + k,
            reg.subscribers@.take(ns as int) == reg0.subscribers@,
            forall|m: int| 0 <= m < k ==> {
                let s = #[trigger] reg.subscribers@[ns + m];
                &&& s.plugin@ == name@
                &&& s.event_name == gcap.event_subscriptions@[m].event_name
                &&& s.callback == gcap.event_subscriptions@[m].callback
            },
        decreases subs@.len(),
    {
        let ghost s0 = subs@;
        let sub = subs.remove(0);
        assert(s0.drop_first() =~= subs@);
        assert(gcap.event_subscriptions@.skip(k + 1) =~= s0.drop_first());
        reg.subscribers.push(Subscriber { plugin: name.to_owned(), event_name: sub.event_name, callback: sub.callback });
        k = k + 1;
    }
    match help_entry {
        Some(e) => shared.push_palette_entry(e),
        None => {},
    }
}

/// The keys of the captured keybinds, in order.
fn keys_of(cap: &CapturedRegistration) -> (r: Vec<char>)
    ensures
        r@.len() == cap.keybinds@.len(),
        forall|i: int| 0 <= i < r@.len() ==> #[trigger] r@[i] == cap.keybinds@[i].key,
{
    let mut out: Vec<char> = Vec::new();
    let mut i: usize = 0;
    while i < cap.keybinds.len()
        invariant
            i <= cap.keybinds@.len(),
            out@.len() == i,
            forall|j: int| 0 <= j < i ==> #[trigger] out@[j] == cap.keybinds@[j].key,
        decreases cap.keybinds@.len() - i,
    {
        out.push(cap.keybinds[i].key);
        i = i + 1;
    }
    out
}

/// The labels of the captured palette commands, in order.
fn labels_of(cap: &CapturedRegistration) -> (r: Vec<String>)
    ensures
        r@.len() == cap.palette_commands@.len(),
        forall|i: int| 0 <= i < r@.len() ==> #[trigger] r@[i]@ == cap.palette_commands@[i].label@,
{
    let mut out: Vec<String> = Vec::new();
    let mut i: usize = 0;
    while i < cap.palette_commands.len()
        invariant
            i <= cap.palette_commands@.len(),
            out@.len() == i,
            forall|j: int| 0 <= j < i ==> #[trigger] out@[j]@ == cap.palette_commands@[j].label@,
        decreases cap.palette_commands@.len() - i,
    {
        out.push(cap.palette_commands[i].label.clone());
        i = i + 1;
    }
    out
}

/// What a registration run captured, summarised for
/// [`plan_registration`]: a script that only declares activation
/// surfaces is a pure-action plugin, with no module to disable or
/// validate.
pub fn summarise(cap: &CapturedRegistration) -> (r: CapturedSummary)
    ensures
        r.kind == PluginKind::PureAction,
        r.keybinds@.len() == cap.keybinds@.len(),
        forall|i: int| 0 <= i < r.keybinds@.len() ==> #[trigger] r.keybinds@[i] == cap.keybinds@[i].key,
        r.palette_labels@.len() == cap.palette_commands@.len(),
        forall|i: int| 0 <= i < r.palette_labels@.len() ==> #[trigger] r.palette_labels@[i]@ == cap.palette_commands@[i].label@,
        r.explicit_footer_hints@.len() == 0,
        r.module_footer_hints@.len() == 0,
{
    CapturedSummary {
        kind: PluginKind::PureAction,
        enabled: true,
        keybinds: keys_of(cap),
        palette_labels: labels_of(cap),
        explicit_footer_hints: Vec::new(),
        module_footer_hints: Vec::new(),
        valid: true,
    }
}

/// Load plugin `name` from `source`: run the script once in a fresh
/// state whose `ttymap` global captures its registration calls, reject
/// a script that declared nothing (see [`check_registration`]), and wire
/// what it declared by [`plan_registration`] and [`apply_plan`]. On an
/// error (the script failed to run, or declared nothing) the host is
/// left as it was and the error's text is returned.
pub fn register_one(name: &str, source: &str, shared: &mut LuaHostShared, reg: &mut Registrar) -> (r: Result<(), String>)
    ensures
        r is Err ==> *final(reg) == *old(reg) && final(shared).palette_entries == old(shared).palette_entries,
        r is Ok ==> exists|plan: Option<RegistrationPlan>, cap: CapturedRegistration| {
            &&& spec_wired(name@, plan, cap, *old(reg), *final(reg))
            &&& final(shared).palette_entries@ == spec_help_rows(plan, old(shared).palette_entries@)
        },
        final(shared).attribution == old(shared).attribution,
        final(shared).geoip_endpoint == old(shared).geoip_endpoint,
        final(shared).keymap_entries == old(shared).keymap_entries,
{
    let lua = new_lua();
    match install_capture(&lua, CapturedRegistration::new()) {
        Ok(()) => {},
        Err(e) => return Err(error_text(&e)),
    }
    match exec_chunk(&lua, source, name) {
        Ok(()) => {},
        Err(e) => return Err(error_text(&e)),
    }
    let cap = match take_captured(&lua) {
        Some(c) => c,
        None => return Err("ttymap: registration was not captured".to_owned()),
    };
    match check_registration(false, cap.palette_commands.len(), cap.keybinds.len(), 0) {
        Ok(()) => {},
        Err(msg) => return Err(msg),
    }
    let summary = summarise(&cap);
    let plan = plan_registration(name, &summary);
    let ghost gplan = plan;
    let ghost gcap = cap;
    proof {
        if let Some(p) = gplan {
            assert(string_views(p.palette_labels@).len() == p.palette_labels@.len());
            assert(string_views(summary.palette_labels@).len() == summary.palette_labels@.len());
        }
    }
    apply_plan(name, plan, cap, shared, reg);
    assert(spec_wired(name@, gplan, gcap, *old(reg), *reg));
    Ok(())
}

} // verus!
