//! Wiring one plugin script into the host.
//!
//! A script registers itself when it first runs, through the
//! `ttymap.register_*` calls. What it declared decides everything else:
//! whether it loads at all, which keys and palette commands activate
//! it, and the row it gets in the help cheatsheet. The Lua side is the
//! source of truth; the host never knows a specific plugin's name.
use vstd::prelude::*;
use crate::keys::{KeyCode, KeyModifiers};
use crate::lua::ttymap::{LuaHostShared, PluginEntry};
use crate::lua::value::{LuaTable, LuaVal, table_get};
use crate::text::{char_to_string, pair_views};

verus! {

/// What a script asked to be: a component (`register_plugin`), a
/// palette (`register_palette`), or neither — a pure-action plugin that
/// only declares activation surfaces.
#[derive(Debug, Clone, Copy, PartialEq, Eq, Structural)]
pub enum PluginKind {
    PureAction,
    Plugin,
    Palette,
}

/// A registration run is accepted when the script declared a spec or at
/// least one activation surface (palette command, keybind, footer
/// hint).
pub open spec fn spec_registration_ok(has_spec: bool, palette_commands: nat, keybinds: nat, footer_hints: nat) -> bool {
    has_spec || palette_commands > 0 || keybinds > 0 || footer_hints > 0
}

/// Check what a script's first run captured: an error unless it called
/// at least one `ttymap.register_*` API.
pub fn check_registration(has_spec: bool, palette_commands: usize, keybinds: usize, footer_hints: usize) -> (r: Result<(), String>)
    ensures
        r is Ok <==> spec_registration_ok(has_spec, palette_commands as nat, keybinds as nat, footer_hints as nat),
        r matches Err(msg) ==> msg@ == "script did not call any ttymap.register_* API (register_plugin, register_palette_command, register_keybind, or register_footer_hint)"@,
{
    let has_surface = palette_commands > 0 || keybinds > 0 || footer_hints > 0;
    if !has_spec && !has_surface {
        Err("script did not call any ttymap.register_* API (register_plugin, register_palette_command, register_keybind, or register_footer_hint)".to_owned())
    } else {
        Ok(())
    }
}

/// Whether a module asked to be skipped: only an `enabled` field that
/// is exactly `false` disables it.
pub open spec fn spec_enabled(v: LuaVal) -> bool {
    !(v matches LuaVal::Boolean(b) && !b)
}

/// Whether an `enabled` field of value `v` keeps the module enabled.
pub fn enabled_from(v: &LuaVal) -> (r: bool)
    ensures
        r == spec_enabled(*v),
{
    match v {
        LuaVal::Boolean(b) => *b,
        _ => true,
    }
}

/// Whether the script's module asked to be skipped via `enabled =
/// false` (see [`enabled_from`]); a field that cannot be read keeps it
/// enabled.
pub fn module_enabled(module: &LuaTable) -> (r: bool)
    ensures
        exists|v: Option<LuaVal>| r == #[trigger] spec_enabled_of(v),
{
    let v = match table_get(module, "enabled").0 {
        Ok(v) => Some(v),
        Err(_) => None,
    };
    enabled_of(&v)
}

/// Whether a module stays enabled given its `enabled` field (`None`:
/// the field could not be read, which keeps it enabled).
pub open spec fn spec_enabled_of(v: Option<LuaVal>) -> bool {
    match v {
        Some(c) => spec_enabled(c),
        None => true,
    }
}

/// Whether a module stays enabled given its `enabled` field (see
/// [`spec_enabled_of`]).
pub fn enabled_of(v: &Option<LuaVal>) -> (r: bool)
    ensures
        r == spec_enabled_of(*v),
{
    match v {
        Some(c) => enabled_from(c),
        None => true,
    }
}

/// What a script's registration run captured, as plain values.
pub struct CapturedSummary {
    pub kind: PluginKind,
    /// The module's `enabled` flag (pure-action plugins have no module).
    pub enabled: bool,
    /// The keys of its `register_keybind` calls, in order.
    pub keybinds: Vec<char>,
    /// The labels of its `register_palette_command` calls, in order.
    pub palette_labels: Vec<String>,
    /// Its `register_footer_hint` calls.
    pub explicit_footer_hints: Vec<(String, String)>,
    /// The module's `footer_hints` field.
    pub module_footer_hints: Vec<(String, String)>,
    /// Whether the component or palette builds from the source.
    pub valid: bool,
}

/// How a registered plugin is wired.
pub struct RegistrationPlan {
    /// The help row, present when the plugin has a keybind.
    pub help_entry: Option<PluginEntry>,
    /// One activation per keybind: the bare character key.
    pub activations: Vec<(KeyCode, KeyModifiers)>,
    /// One palette entry per palette command, by label.
    pub palette_labels: Vec<String>,
}

/// A plugin loads unless its module disabled it or it failed to build
/// (pure-action plugins have neither a module nor anything to build).
pub open spec fn spec_loads(kind: PluginKind, enabled: bool, valid: bool) -> bool {
    kind == PluginKind::PureAction || (enabled && valid)
}

/// The footer hints shown for a plugin: explicit `register_footer_hint`
/// calls win; otherwise the module's `footer_hints` (none for a
/// pure-action plugin).
pub open spec fn spec_footer_hints_of(
    kind: PluginKind,
    explicit: Seq<(Seq<char>, Seq<char>)>,
    module: Seq<(Seq<char>, Seq<char>)>,
) -> Seq<(Seq<char>, Seq<char>)> {
    if explicit.len() > 0 {
        explicit
    } else if kind != PluginKind::PureAction {
        module
    } else {
        Seq::empty()
    }
}

/// The label of a plugin's help row: its first palette command's label,
/// else its name.
pub open spec fn spec_help_label(palette_labels: Seq<Seq<char>>, name: Seq<char>) -> Seq<char> {
    if palette_labels.len() > 0 {
        palette_labels[0]
    } else {
        name
    }
}

fn copy_pairs(v: &Vec<(String, String)>) -> (r: Vec<(String, String)>)
    ensures
        pair_views(r@) == pair_views(v@),
{
    let mut out: Vec<(String, String)> = Vec::new();
    let mut i: usize = 0;
    while i < v.len()
        invariant
            i <= v@.len(),
            pair_views(out@) == pair_views(v@.take(i as int)),
        decreases v@.len() - i,
    {
        let ghost before = out@;
        let a = v[i].0.clone();
        let b = v[i].1.clone();
        out.push((a, b));
        assert(pair_views(out@) =~= pair_views(before).push((v@[i as int].0@, v@[i as int].1@)));
        assert(pair_views(v@.take(i + 1)) =~= pair_views(v@.take(i as int)).push((v@[i as int].0@, v@[i as int].1@)));
        i = i + 1;
    }
    assert(v@.take(v@.len() as int) =~= v@);
    out
}

fn copy_strings(v: &Vec<String>) -> (r: Vec<String>)
    ensures
        crate::input::keymap::string_views(r@) == crate::input::keymap::string_views(v@),
{
    let mut out: Vec<String> = Vec::new();
    let mut i: usize = 0;
    while i < v.len()
        invariant
            i <= v@.len(),
            crate::input::keymap::string_views(out@) == crate::input::keymap::string_views(v@.take(i as int)),
        decreases v@.len() - i,
    {
        let ghost before = out@;
        out.push(v[i].clone());
        assert(crate::input::keymap::string_views(out@) =~= crate::input::keymap::string_views(before).push(v@[i as int]@));
        assert(crate::input::keymap::string_views(v@.take(i + 1)) =~= crate::input::keymap::string_views(v@.take(i as int)).push(v@[i as int]@));
        i = i + 1;
    }
    assert(v@.take(v@.len() as int) =~= v@);
    out
}

/// The key of a character.
fn char_key(c: char) -> (r: KeyCode)
    ensures
        r == KeyCode::Char(c),
{
    KeyCode::Char(c)
}

/// One bare-character activation per keybind, in order.
fn activations_for(keys: &Vec<char>) -> (r: Vec<(KeyCode, KeyModifiers)>)
    ensures
        r@.len() == keys@.len(),
        forall|k: int| 0 <= k < keys@.len()
            ==> #[trigger] r@[k] == (KeyCode::Char(keys@[k]), KeyModifiers { bits: 0 }),
{
    let mut out: Vec<(KeyCode, KeyModifiers)> = Vec::new();
    let mut i: usize = 0;
    while i < keys.len()
        invariant
            i <= keys@.len(),
            out@.len() == i,
            forall|k: int| 0 <= k < i
                ==> #[trigger] out@[k] == (KeyCode::Char(keys@[k]), KeyModifiers { bits: 0 }),
        decreases keys@.len() - i,
    {
        let code = char_key(keys[i]);
        out.push((code, KeyModifiers::none()));
        i = i + 1;
    }
    out
}

/// Decide how a plugin is wired from what its registration captured:
/// `None` when it does not load. Otherwise every keybind becomes a
/// bare-character activation and every palette command a palette entry;
/// a plugin with a keybind also gets a help row keyed by its first
/// keybind and labelled by its first palette command (or its name),
/// carrying its footer hints.
pub fn plan_registration(name: &str, c: &CapturedSummary) -> (r: Option<RegistrationPlan>)
    ensures
        r is Some <==> spec_loads(c.kind, c.enabled, c.valid),
        r matches Some(p) ==> {
            &&& p.activations@.len() == c.keybinds@.len()
            &&& forall|i: int| 0 <= i < c.keybinds@.len()
                ==> #[trigger] p.activations@[i] == (KeyCode::Char(c.keybinds@[i]), KeyModifiers { bits: 0 })
            &&& crate::input::keymap::string_views(p.palette_labels@) == crate::input::keymap::string_views(c.palette_labels@)
            &&& (p.help_entry is Some <==> c.keybinds@.len() > 0)
            &&& p.help_entry matches Some(e) ==> {
                &&& e.name@ == name@
                &&& e.key@ == seq![c.keybinds@[0]]
                &&& e.label@ == spec_help_label(crate::input::keymap::string_views(c.palette_labels@), name@)
                &&& pair_views(e.footer_hints@) == spec_footer_hints_of(
                    c.kind,
                    pair_views(c.explicit_footer_hints@),
                    pair_views(c.module_footer_hints@),
                )
            }
        },
{
    let loads = match c.kind {
        PluginKind::PureAction => true,
        _ => c.enabled && c.valid,
    };
    if !loads {
        return None;
    }
    let footer_hints = if c.explicit_footer_hints.len() > 0 {
        copy_pairs(&c.explicit_footer_hints)
    } else {
        match c.kind {
            PluginKind::PureAction => Vec::new(),
            _ => copy_pairs(&c.module_footer_hints),
        }
    };
    proof {
        if c.explicit_footer_hints@.len() == 0 && c.kind == PluginKind::PureAction {
            assert(pair_views(footer_hints@) =~= Seq::<(Seq<char>, Seq<char>)>::empty());
        }
    }
    let help_entry = if c.keybinds.len() > 0 {
        let key = char_to_string(c.keybinds[0]);
        let label = if c.palette_labels.len() > 0 {
            c.palette_labels[0].clone()
        } else {
            name.to_owned()
        };
        Some(PluginEntry { name: name.to_owned(), key, label, footer_hints })
    } else {
        None
    };
    let activations = activations_for(&c.keybinds);
    let palette_labels = copy_strings(&c.palette_labels);
    Some(RegistrationPlan { help_entry, activations, palette_labels })
}

/// Surface a plugin's metadata to help through the shared snapshot.
pub fn push_plugin_entry(
    shared: &mut LuaHostShared,
    name: &str,
    key: &str,
    label: &str,
    footer_hints: &Vec<(String, String)>,
)
    ensures
        final(shared).palette_entries@.len() == old(shared).palette_entries@.len() + 1,
        final(shared).palette_entries@.drop_last() == old(shared).palette_entries@,
        final(shared).palette_entries@.last().name@ == name@,
        final(shared).palette_entries@.last().key@ == key@,
        final(shared).palette_entries@.last().label@ == label@,
        pair_views(final(shared).palette_entries@.last().footer_hints@) == pair_views(footer_hints@),
        final(shared).keymap_entries == old(shared).keymap_entries,
{
    let entry = PluginEntry {
        name: name.to_owned(),
        key: key.to_owned(),
        label: label.to_owned(),
        footer_hints: copy_pairs(footer_hints),
    };
    shared.push_palette_entry(entry);
    assert(shared.palette_entries@.drop_last() =~= old(shared).palette_entries@);
}

} // verus!
