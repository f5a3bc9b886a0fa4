//! [`LuaPaletteProvider`]: a palette whose prompt, rows and actions come
//! from a Lua spec table (`ttymap.api.palette.open(spec)`).
//!
//! Spec fields: `prompt`, `submit_mode`, and the callbacks `filter`,
//! `items`, `execute`, `cancel`, `poll`, `is_loading`. Errors raised by
//! a callback are recovered: empty results, or the `Close` action.
use vstd::prelude::*;
use crate::lua::bridge::handle::{CallOutcome, LuaHandle};
use crate::lua::value::{CallArg, LuaTable, LuaVal, table_get, table_get_string, table_get_u64, table_sequence, truthy};
use crate::text::str_is;

verus! {

/// When the palette re-runs `filter`.
#[derive(Debug, Clone, Copy, PartialEq, Eq, Structural)]
pub enum SubmitMode {
    /// On every keystroke.
    OnEachKey,
    /// After typing pauses for this many milliseconds.
    Debounced(u64),
    /// Only on Enter.
    OnEnter,
}

/// What a palette asks the host to do after `execute` / `cancel`.
#[derive(Debug, Clone, Copy, PartialEq, Eq, Structural)]
pub enum PaletteAction {
    /// Close the palette.
    Close,
}

/// One palette row.
#[derive(Debug, Clone, PartialEq, Eq)]
pub struct PaletteItem {
    pub label: String,
    pub hint: String,
}

/// The debounce used when a plugin asks for `"debounced"` without a
/// delay.
pub const DEFAULT_DEBOUNCE_MS: u64 = 400;

/// `spec.submit_mode` as read from the script.
pub enum SubmitModeFields {
    /// Absent or `nil`.
    Absent,
    /// A string (`None`: not valid UTF-8).
    Text(Option<String>),
    /// A table: its `kind` and `ms` fields.
    Record { kind: Option<String>, ms: Option<u64> },
    /// Any other value.
    Other,
}

/// The submit mode `spec.submit_mode` selects: `"debounced"` (400 ms) and
/// `"on_enter"` as strings; `{ kind = "debounced", ms = N }` (400 ms by
/// default) and `{ kind = "on_enter" }` as tables; on-each-key for
/// everything else.
pub open spec fn spec_submit_mode(f: SubmitModeFields) -> SubmitMode {
    match f {
        SubmitModeFields::Text(Some(s)) => if s@ == "debounced"@ {
            SubmitMode::Debounced(DEFAULT_DEBOUNCE_MS)
        } else if s@ == "on_enter"@ {
            SubmitMode::OnEnter
        } else {
            SubmitMode::OnEachKey
        },
        SubmitModeFields::Record { kind: Some(k), ms } => if k@ == "debounced"@ {
            SubmitMode::Debounced(match ms {
                Some(m) => m,
                None => DEFAULT_DEBOUNCE_MS,
            })
        } else if k@ == "on_enter"@ {
            SubmitMode::OnEnter
        } else {
            SubmitMode::OnEachKey
        },
        _ => SubmitMode::OnEachKey,
    }
}

/// The submit mode the fields of `spec.submit_mode` select.
pub fn submit_mode_from(f: SubmitModeFields) -> (r: SubmitMode)
    ensures
        r == spec_submit_mode(f),
{
    match f {
        SubmitModeFields::Text(Some(s)) => if str_is(s.as_str(), "debounced") {
            SubmitMode::Debounced(DEFAULT_DEBOUNCE_MS)
        } else if str_is(s.as_str(), "on_enter") {
            SubmitMode::OnEnter
        } else {
            SubmitMode::OnEachKey
        },
        SubmitModeFields::Record { kind: Some(k), ms } => if str_is(k.as_str(), "debounced") {
            SubmitMode::Debounced(match ms {
                Some(m) => m,
                None => DEFAULT_DEBOUNCE_MS,
            })
        } else if str_is(k.as_str(), "on_enter") {
            SubmitMode::OnEnter
        } else {
            SubmitMode::OnEachKey
        },
        _ => SubmitMode::OnEachKey,
    }
}

/// The fields a `submit_mode` value gives (`None`: the field could not
/// be read): a missing field or `nil` is absent, a string is taken as
/// it is, a table is read for `kind` and `ms`, anything else is
/// unusable.
pub fn submit_mode_fields_of(v: Option<LuaVal>) -> (r: SubmitModeFields)
    ensures
        match v {
            None => r is Absent,
            Some(LuaVal::Nil) => r is Absent,
            Some(LuaVal::Str(s)) => r == SubmitModeFields::Text(s),
            Some(LuaVal::Table(_)) => r is Record,
            Some(_) => r is Other,
        },
{
    match v {
        None => SubmitModeFields::Absent,
        Some(LuaVal::Nil) => SubmitModeFields::Absent,
        Some(LuaVal::Str(s)) => SubmitModeFields::Text(s),
        Some(LuaVal::Table(t)) => SubmitModeFields::Record {
            kind: table_get_string(&t, "kind").0.ok(),
            ms: table_get_u64(&t, "ms").0.ok(),
        },
        Some(_) => SubmitModeFields::Other,
    }
}

/// Read `spec.submit_mode` (see [`submit_mode_fields_of`]).
pub fn read_submit_mode_fields(spec: &LuaTable) -> (r: SubmitModeFields) {
    let v = match table_get(spec, "submit_mode").0 {
        Err(_) => None,
        Ok(v) => Some(v),
    };
    submit_mode_fields_of(v)
}

/// Parse `spec.submit_mode`; on-each-key when the plugin omits it.
pub fn parse_submit_mode(spec: &LuaTable) -> (r: SubmitMode)
    ensures
        exists|f: SubmitModeFields| r == spec_submit_mode(f),
{
    let f = read_submit_mode_fields(spec);
    let ghost g = f;
    let r = submit_mode_from(f);
    assert(r == spec_submit_mode(g));
    r
}

/// The prompt a palette shows: the spec's `prompt`, `":"` when absent.
pub open spec fn spec_prompt(prompt: Option<String>) -> Seq<char> {
    match prompt {
        Some(p) => p@,
        None => ":"@,
    }
}

/// The rows a list of `(label, hint)` fields describes; a missing field
/// is the empty string.
pub open spec fn spec_items(fs: Seq<(Option<String>, Option<String>)>) -> Seq<(Seq<char>, Seq<char>)> {
    fs.map_values(|f: (Option<String>, Option<String>)| (
        match f.0 {
            Some(l) => l@,
            None => Seq::<char>::empty(),
        },
        match f.1 {
            Some(h) => h@,
            None => Seq::<char>::empty(),
        },
    ))
}

/// The characters of each row's label and hint.
pub open spec fn item_views(v: Seq<PaletteItem>) -> Seq<(Seq<char>, Seq<char>)> {
    v.map_values(|i: PaletteItem| (i.label@, i.hint@))
}

fn or_empty(s: &Option<String>) -> (r: String)
    ensures
        r@ == (match s {
            Some(x) => x@,
            None => Seq::<char>::empty(),
        }),
{
    match s {
        Some(x) => x.clone(),
        None => String::new(),
    }
}

/// Build the palette rows from the `(label, hint)` fields of the tables
/// `items()` returned.
pub fn items_from(fields: &Vec<(Option<String>, Option<String>)>) -> (r: Vec<PaletteItem>)
    ensures
        item_views(r@) == spec_items(fields@),
{
    let mut out: Vec<PaletteItem> = Vec::new();
    let mut i: usize = 0;
    while i < fields.len()
        invariant
            i <= fields@.len(),
            item_views(out@) == spec_items(fields@.take(i as int)),
        decreases fields@.len() - i,
    {
        let ghost before = out@;
        let ghost fi = fields@[i as int];
        let label = or_empty(&fields[i].0);
        let hint = or_empty(&fields[i].1);
        out.push(PaletteItem { label, hint });
        assert(fields@.take(i + 1) =~= fields@.take(i as int).push(fi));
        assert(spec_items(fields@.take(i + 1)) =~= spec_items(fields@.take(i as int)).push(spec_items(seq![fi])[0]));
        assert(item_views(out@) =~= item_views(before).push((label@, hint@)));
        i = i + 1;
    }
    assert(fields@.take(fields@.len() as int) =~= fields@);
    out
}

/// Read the rows `items()` returned: `None` when the result is not a
/// table of tables (a conversion error).
fn read_item_fields(v: LuaVal) -> (r: Option<Vec<(Option<String>, Option<String>)>>)
    ensures
        !(v is Table) ==> r is None,
{
    let t = match v {
        LuaVal::Table(t) => t,
        _ => return None,
    };
    let mut entries = table_sequence(&t);
    let mut out: Vec<(Option<String>, Option<String>)> = Vec::new();
    while entries.len() > 0
        decreases entries@.len(),
    {
        match entries.remove(0) {
            LuaVal::Table(row) => {
                let label = table_get_string(&row, "label").0.ok();
                let hint = table_get_string(&row, "hint").0.ok();
                out.push((label, hint));
            },
            _ => return None,
        }
    }
    Some(out)
}

/// A palette backed by a Lua spec table.
pub struct LuaPaletteProvider {
    pub handle: LuaHandle,
    /// Read once at construction.
    pub prompt: String,
    /// Read once at construction.
    pub submit_mode: SubmitMode,
    /// Rows from the latest `items()` call.
    pub items: Vec<PaletteItem>,
}

impl LuaPaletteProvider {
    /// Build a palette from a spec table.
    pub fn from_spec(spec: LuaTable, log_tag: &str) -> (r: Self)
        ensures
            exists|p: Option<String>| r.prompt@ == spec_prompt(p),
            exists|f: SubmitModeFields| r.submit_mode == spec_submit_mode(f),
            r.items@.len() == 0,
            r.handle.log_tag@ == log_tag@,
            r.handle.module == spec,
    {
        let p = table_get_string(&spec, "prompt").0.ok();
        let ghost g = p;
        let prompt = match p {
            Some(s) => s,
            None => ":".to_owned(),
        };
        assert(prompt@ == spec_prompt(g));
        let submit_mode = parse_submit_mode(&spec);
        let handle = LuaHandle::new(spec, log_tag.to_owned());
        LuaPaletteProvider { handle, prompt, submit_mode, items: Vec::new() }
    }

    /// The prompt shown before the query.
    pub fn prompt(&self) -> (r: &str)
        ensures
            r@ == self.prompt@,
    {
        self.prompt.as_str()
    }

    /// When the palette re-runs `filter`.
    pub fn submit_mode(&self) -> (r: SubmitMode)
        ensures
            r == self.submit_mode,
    {
        self.submit_mode
    }

    /// The current rows.
    pub fn items(&self) -> (r: &Vec<PaletteItem>)
        ensures
            *r == self.items,
    {
        &self.items
    }

    /// Re-pull `items()` from Lua: the rows it returned, or none when it
    /// is missing, raised, or returned something that is not a table of
    /// tables.
    pub fn refresh_items(&mut self)
        ensures
            final(self).prompt == old(self).prompt,
            final(self).submit_mode == old(self).submit_mode,
            exists|fs: Seq<(Option<String>, Option<String>)>| item_views(final(self).items@) == spec_items(fs),
    {
        let fields = match self.handle.try_call("items", CallArg::Unit) {
            CallOutcome::Returned(v) => read_item_fields(v),
            CallOutcome::Missing | CallOutcome::Errored => None,
        };
        match fields {
            Some(fs) => {
                self.items = items_from(&fs);
            },
            None => {
                self.items = Vec::new();
                assert(item_views(self.items@) =~= spec_items(Seq::empty()));
            },
        }
    }

    /// The query changed: run the script's `filter`, then re-pull rows.
    pub fn filter(&mut self, query: &str)
        ensures
            final(self).prompt == old(self).prompt,
            final(self).submit_mode == old(self).submit_mode,
    {
        let _ = self.handle.try_call("filter", CallArg::Str(query.to_owned()));
        self.refresh_items();
    }

    /// Row `idx` (0-based) was confirmed: run the script's `execute`
    /// with the 1-based Lua index. The palette then closes; map intents
    /// the callback raised travel through the host channels.
    pub fn execute(&mut self, idx: usize) -> (r: PaletteAction)
        requires
            idx < i64::MAX,
        ensures
            r == PaletteAction::Close,
            final(self).items == old(self).items,
    {
        let lua_idx: i64 = (idx as i64) + 1;
        let _ = self.handle.try_call("execute", CallArg::Int(lua_idx));
        PaletteAction::Close
    }

    /// The palette was dismissed: run the script's `cancel`, if any. The
    /// palette then closes.
    pub fn cancel(&mut self) -> (r: PaletteAction)
        ensures
            r == PaletteAction::Close,
            final(self).items == old(self).items,
    {
        let _ = self.handle.try_call("cancel", CallArg::Unit);
        PaletteAction::Close
    }

    /// Per-frame tick: run the script's `poll`, then re-pull rows.
    pub fn poll(&mut self)
        ensures
            final(self).prompt == old(self).prompt,
            final(self).submit_mode == old(self).submit_mode,
    {
        let _ = self.handle.try_call("poll", CallArg::Unit);
        self.refresh_items();
    }

    /// Whether the script reports work in flight: the truthiness of what
    /// `is_loading()` returned; `false` when it is missing or raised.
    pub fn is_loading(&self) -> (r: bool) {
        match self.handle.try_call("is_loading", CallArg::Unit) {
            CallOutcome::Returned(v) => {
                let c = v;
                truthy(&c)
            },
            CallOutcome::Missing | CallOutcome::Errored => false,
        }
    }
}

} // verus!
