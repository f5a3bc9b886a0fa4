//! The bridge's view of Lua data.
//!
//! Lua tables and functions stay opaque. Each one the bridge holds comes
//! together with a strong handle on the Lua state it lives in, so the
//! state cannot be destroyed while the bridge still reads it: every
//! table is made by, read out of, or returned into that same state. The
//! bridge reads them through the small set of accessors below and sorts
//! every value into a [`LuaVal`], the handful of shapes the plugin
//! protocol tells apart. Everything a table holds lives in the Lua VM
//! and can change between two reads (a read may even run Lua code
//! through `__index`), so none of the accessors promises what it
//! returns; the parsers built on them state their result over the values
//! they were handed.
use vstd::prelude::*;
use mlua::{Error, Function, Lua, Table, Value};
use crate::lua::load::{CapturedRegistration, capture_event, capture_keybind, capture_palette_command, capture_tick};

verus! {

#[verifier::external_type_specification]
#[verifier::external_body]
pub struct ExLuaState(Lua);

#[verifier::external_type_specification]
#[verifier::external_body]
pub struct ExLuaTable(Table);

#[verifier::external_type_specification]
#[verifier::external_body]
pub struct ExLuaValue(Value);

#[verifier::external_type_specification]
#[verifier::external_body]
pub struct ExLuaFunction(Function);

#[verifier::external_type_specification]
#[verifier::external_body]
pub struct ExLuaError(Error);

/// A Lua table together with the Lua state it lives in.
#[derive(Debug)]
pub struct LuaTable {
    lua: Lua,
    table: Table,
}

/// A Lua function together with the Lua state it lives in.
#[derive(Debug)]
pub struct LuaFunction {
    lua: Lua,
    func: Function,
}

impl LuaTable {
    /// The state the table lives in.
    pub closed spec fn spec_state(&self) -> Lua {
        self.lua
    }

    /// The state the table lives in.
    pub fn state(&self) -> (r: &Lua)
        ensures
            *r == self.spec_state(),
    {
        &self.lua
    }
}

/// The shapes of Lua value the plugin protocol distinguishes.
#[derive(Debug)]
pub enum LuaVal {
    /// `nil`.
    Nil,
    /// `true` / `false`.
    Boolean(bool),
    /// An integer, with its debug rendering.
    Integer(i64, String),
    /// A string; `None` when its bytes are not valid UTF-8.
    Str(Option<String>),
    /// A table.
    Table(LuaTable),
    /// A function, with its debug rendering.
    Function(String),
    /// Any other value (floats, userdata, threads, …), with its debug
    /// rendering.
    Other(String),
}

/// Lua truthiness: everything except `nil` and `false` counts as true.
pub open spec fn spec_truthy(v: LuaVal) -> bool {
    match v {
        LuaVal::Nil => false,
        LuaVal::Boolean(b) => b,
        _ => true,
    }
}

/// Lua truthiness of `v`.
pub fn truthy(v: &LuaVal) -> (r: bool)
    ensures
        r == spec_truthy(*v),
{
    match v {
        LuaVal::Nil => false,
        LuaVal::Boolean(b) => *b,
        _ => true,
    }
}

/// The argument handed to a plugin callback.
pub enum CallArg {
    /// No argument.
    Unit,
    /// One string.
    Str(String),
    /// One integer.
    Int(i64),
    /// A key-press table `{ code, char?, ctrl, shift, alt }`, built in
    /// the callee's own state.
    Key { code: &'static str, ch: Option<char>, ctrl: bool, shift: bool, alt: bool },
}

/// Sort a `mlua::Value` read out of `lua` into a [`LuaVal`]: `Nil`,
/// `Boolean`, `Integer`, `String` (decoded with `mlua::String::to_str`),
/// `Table` (kept with `lua`) and `Function` keep their variant; every
/// other variant becomes `Other` with its `Debug` rendering. Only the
/// accessors below call it, each on a value just read out of the state
/// they hold.
#[verifier::external_body]
fn classify(lua: &Lua, v: Value) -> (r: LuaVal) {
    match v {
        Value::Nil => LuaVal::Nil,
        Value::Boolean(b) => LuaVal::Boolean(b),
        i @ Value::Integer(_) => LuaVal::Integer(i.as_integer().unwrap_or(0), format!("{:?}", i)),
        Value::String(s) => LuaVal::Str(s.to_str().ok().map(|c| c.to_string())),
        Value::Table(t) => LuaVal::Table(LuaTable { lua: lua.clone(), table: t }),
        f @ Value::Function(_) => LuaVal::Function(format!("{:?}", f)),
        other => LuaVal::Other(format!("{:?}", other)),
    }
}

/// `mlua::Lua::load(source).eval::<Value>()`: run a chunk in `lua` and
/// sort the value it returns. Whether it succeeds, and what it returns,
/// is up to the chunk.
#[verifier::external_body]
fn eval_chunk(lua: &Lua, source: &str) -> (r: Result<LuaVal, Error>) {
    lua.load(source).eval::<Value>().map(|v| classify(lua, v))
}

/// Run a chunk in `lua` and return the value it returns.
pub fn eval_value(lua: &Lua, source: &str) -> (r: Result<LuaVal, Error>) {
    eval_chunk(lua, source)
}

/// Run a chunk in `lua` that returns a table: `None` when it raised or
/// returned something else.
pub fn eval_table(lua: &Lua, source: &str) -> (r: Option<LuaTable>) {
    match eval_chunk(lua, source) {
        Ok(LuaVal::Table(t)) => Some(t),
        _ => None,
    }
}

/// `mlua::Table::get::<Value>(key)`: the value stored under a string
/// key, after any `__index` metamethod. Unstated: what the table holds.
#[verifier::external_body]
pub(crate) fn table_get(t: &LuaTable, key: &str) -> (r: (Result<LuaVal, Error>, Ghost<Seq<char>>))
    ensures
        r.1@ == key@,
{
    (t.table.get::<Value>(key).map(|v| classify(&t.lua, v)), Ghost(key@))
}

/// `mlua::Table::get::<String>(key)`: the value under a string key,
/// coerced to a Rust string (Lua numbers are formatted; other types are
/// an error). Unstated: what the table holds.
#[verifier::external_body]
pub(crate) fn table_get_string(t: &LuaTable, key: &str) -> (r: (Result<String, Error>, Ghost<Seq<char>>))
    ensures
        r.1@ == key@,
{
    (t.table.get::<String>(key), Ghost(key@))
}

/// `mlua::Table::get::<String>(index)`: as [`table_get_string`], for an
/// integer key.
#[verifier::external_body]
pub(crate) fn table_get_string_at(t: &LuaTable, index: i64) -> (r: Result<String, Error>) {
    t.table.get::<String>(index)
}

/// `mlua::Table::get::<u16>(key)`: the value under a string key when it
/// is a number that fits a `u16`. Unstated: what the table holds.
#[verifier::external_body]
pub(crate) fn table_get_u16(t: &LuaTable, key: &str) -> (r: Result<u16, Error>) {
    t.table.get::<u16>(key)
}

/// `mlua::Table::get::<u64>(key)`: the value under a string key when it
/// is a number that fits a `u64`. Unstated: what the table holds.
#[verifier::external_body]
pub(crate) fn table_get_u64(t: &LuaTable, key: &str) -> (r: (Result<u64, Error>, Ghost<Seq<char>>))
    ensures
        r.1@ == key@,
{
    (t.table.get::<u64>(key), Ghost(key@))
}

/// `mlua::Table::get::<Function>(key)`: the function stored under a
/// string key; an error when the field is absent or not a function.
#[verifier::external_body]
pub(crate) fn table_get_function(t: &LuaTable, key: &str) -> (r: Result<LuaFunction, Error>) {
    t.table.get::<Function>(key).map(|f| LuaFunction { lua: t.lua.clone(), func: f })
}

/// `mlua::Table::sequence_values::<Value>()`: the entries at keys
/// `1, 2, …` up to the first `nil`, one for one, each as mlua reported
/// it (a value or an error). Unstated: what the table holds.
#[verifier::external_body]
pub(crate) fn table_sequence_entries(t: &LuaTable) -> (r: Vec<Result<LuaVal, Error>>) {
    t.table.sequence_values::<Value>().map(|e| e.map(|v| classify(&t.lua, v))).collect()
}

/// `mlua::Table::sequence_values::<String>()`: the entries at keys
/// `1, 2, …` up to the first `nil`, one for one, each coerced to a
/// string (numbers are formatted), or an error where it does not
/// convert. Unstated: what the table holds.
#[verifier::external_body]
pub(crate) fn table_sequence_string_entries(t: &LuaTable) -> (r: Vec<Result<String, Error>>) {
    t.table.sequence_values::<String>().collect()
}

/// The values of the `Ok` entries of `s`, in order.
pub open spec fn spec_oks<T, E>(s: Seq<Result<T, E>>) -> Seq<T>
    decreases s.len(),
{
    if s.len() == 0 {
        Seq::empty()
    } else {
        let head: Seq<T> = match s[0] {
            Ok(x) => seq![x],
            Err(_) => Seq::empty(),
        };
        head + spec_oks(s.drop_first())
    }
}

/// Keep the values of the `Ok` entries of `v`, in order.
pub fn keep_ok<T, E>(v: Vec<Result<T, E>>) -> (r: Vec<T>)
    ensures
        r@ == spec_oks(v@),
{
    let ghost orig = v@;
    let mut v = v;
    let mut out: Vec<T> = Vec::new();
    while v.len() > 0
        invariant
            spec_oks(orig) == out@ + spec_oks(v@),
        decreases v@.len(),
    {
        let ghost before = v@;
        let e = v.remove(0);
        assert(before.drop_first() =~= v@);
        match e {
            Ok(x) => {
                let ghost o = out@;
                out.push(x);
                assert(o + (seq![x] + spec_oks(v@)) =~= out@ + spec_oks(v@));
            },
            Err(_) => {
                assert(Seq::<T>::empty() + spec_oks(v@) =~= spec_oks(v@));
            },
        }
    }
    assert(out@ + Seq::<T>::empty() =~= out@);
    out
}

/// The sequence entries of `t` that mlua read without error (see
/// [`table_sequence_entries`]).
pub(crate) fn table_sequence(t: &LuaTable) -> (r: Vec<LuaVal>) {
    keep_ok(table_sequence_entries(t))
}

/// The sequence entries of `t` that convert to strings, in order (see
/// [`table_sequence_string_entries`]).
pub(crate) fn table_sequence_strings(t: &LuaTable) -> (r: Vec<String>) {
    keep_ok(table_sequence_string_entries(t))
}

/// `mlua::Table::len()`: the table's length as Lua's `#` operator
/// reports it (honouring `__len`). Unstated: what the table holds.
#[verifier::external_body]
pub(crate) fn table_len(t: &LuaTable) -> (r: Result<i64, Error>) {
    t.table.len()
}

/// `mlua::Function::call::<Value>(arg)`: run the function with one
/// argument (or none) and sort its first result (`nil` when it returned
/// nothing). What it returns, and whether it raises, is up to the
/// script.
#[verifier::external_body]
pub(crate) fn function_call(f: &LuaFunction, arg: CallArg) -> (r: Result<LuaVal, Error>) {
    let v = match arg {
        CallArg::Unit => f.func.call::<Value>(()),
        CallArg::Str(s) => f.func.call::<Value>(s),
        CallArg::Int(i) => f.func.call::<Value>(i),
        CallArg::Key { code, ch, ctrl, shift, alt } => key_table(&f.lua, code, ch, ctrl, shift, alt)
            .and_then(|t| f.func.call::<Value>(t)),
    };
    v.map(|v| classify(&f.lua, v))
}

/// `mlua::Lua::create_table()` and `Table::set` for each field: the
/// key-press table `{ code = code, char = ch, ctrl = ctrl, shift = shift,
/// alt = alt }` in `lua` (`char` left unset when `ch` is `None`).
#[verifier::external_body]
fn key_table(lua: &Lua, code: &str, ch: Option<char>, ctrl: bool, shift: bool, alt: bool) -> (r: Result<Table, Error>) {
    let t = lua.create_table()?;
    t.set("code", code)?;
    t.set("char", ch.map(|c| c.to_string()))?;
    t.set("ctrl", ctrl)?;
    t.set("shift", shift)?;
    t.set("alt", alt)?;
    Ok(t)
}

/// `mlua::Lua::new()`: a fresh Lua state with the safe standard
/// libraries.
#[verifier::external_body]
pub(crate) fn new_lua() -> (r: Lua) {
    Lua::new()
}

/// `Error`'s `Display` text.
#[verifier::external_body]
pub(crate) fn error_text(e: &Error) -> (r: String) {
    e.to_string()
}

/// `mlua::Lua::load(source).set_name(chunk_name).exec()`: run a script.
/// Whether it succeeds is up to the script.
#[verifier::external_body]
pub(crate) fn exec_chunk(lua: &Lua, source: &str, chunk_name: &str) -> (r: Result<(), Error>) {
    lua.load(source).set_name(chunk_name).exec()
}

/// Install the capturing `ttymap` global in `lua`: `Lua::set_app_data`
/// keeps `init` as the registration in progress, and
/// `register_palette_command`, `register_keybind`, `on_event` and
/// `api.frame.on_tick` become functions (`Lua::create_function`) that
/// record each call into it through [`capture_palette_command`],
/// [`capture_keybind`], [`capture_event`] and [`capture_tick`], raising
/// their errors to the script.
#[verifier::external_body]
pub(crate) fn install_capture(lua: &Lua, init: CapturedRegistration) -> (r: Result<(), Error>) {
    lua.set_app_data(init);
    let t = lua.create_table()?;
    t.set("register_palette_command", lua.create_function(palette_hook)?)?;
    t.set("register_keybind", lua.create_function(keybind_hook)?)?;
    t.set("on_event", lua.create_function(event_hook)?)?;
    let frame = lua.create_table()?;
    frame.set("on_tick", lua.create_function(tick_hook)?)?;
    let api = lua.create_table()?;
    api.set("frame", frame)?;
    t.set("api", api)?;
    lua.globals().set("ttymap", t)
}

/// The `register_palette_command(spec)` hook: reads `spec.label`,
/// `spec.hint` (strings) and `spec.invoke` (a function) and hands them to
/// [`capture_palette_command`].
#[verifier::external_body]
fn palette_hook(lua: &Lua, spec: Table) -> (r: Result<(), Error>) {
    let label = spec.get::<String>("label").ok();
    let hint = spec.get::<String>("hint").ok();
    let invoke = spec.get::<Function>("invoke").ok().map(|f| LuaFunction { lua: lua.clone(), func: f });
    let mut c = lua.try_app_data_mut::<CapturedRegistration>().map_err(Error::external)?
        .ok_or_else(|| Error::external("ttymap: no registration in progress"))?;
    capture_palette_command(&mut c, label, hint, invoke).map_err(Error::external)
}

/// The `register_keybind(key, callback)` hook: hands its arguments to
/// [`capture_keybind`].
#[verifier::external_body]
fn keybind_hook(lua: &Lua, args: (String, Function)) -> (r: Result<(), Error>) {
    let mut c = lua.try_app_data_mut::<CapturedRegistration>().map_err(Error::external)?
        .ok_or_else(|| Error::external("ttymap: no registration in progress"))?;
    capture_keybind(&mut c, &args.0, LuaFunction { lua: lua.clone(), func: args.1 }).map_err(Error::external)
}

/// The `on_event(name, fn)` hook: hands its arguments to
/// [`capture_event`].
#[verifier::external_body]
fn event_hook(lua: &Lua, args: (String, Function)) -> (r: Result<(), Error>) {
    let mut c = lua.try_app_data_mut::<CapturedRegistration>().map_err(Error::external)?
        .ok_or_else(|| Error::external("ttymap: no registration in progress"))?;
    capture_event(&mut c, args.0, LuaFunction { lua: lua.clone(), func: args.1 }).map_err(Error::external)
}

/// The `api.frame.on_tick(fn)` hook: hands its argument to
/// [`capture_tick`].
#[verifier::external_body]
fn tick_hook(lua: &Lua, f: Function) -> (r: Result<(), Error>) {
    let mut c = lua.try_app_data_mut::<CapturedRegistration>().map_err(Error::external)?
        .ok_or_else(|| Error::external("ttymap: no registration in progress"))?;
    capture_tick(&mut c, LuaFunction { lua: lua.clone(), func: f });
    Ok(())
}

/// `mlua::Lua::remove_app_data`: take back the registration in progress
/// (`None` when none is installed).
#[verifier::external_body]
pub(crate) fn take_captured(lua: &Lua) -> (r: Option<CapturedRegistration>) {
    lua.remove_app_data::<CapturedRegistration>()
}

/// `mlua::Table::get::<bool>(key)`: the truthiness of the value under a
/// string key (`nil` reads as `false`). Unstated: what the table holds.
#[verifier::external_body]
pub(crate) fn table_get_bool(t: &LuaTable, key: &str) -> (r: (Result<bool, Error>, Ghost<Seq<char>>))
    ensures
        r.1@ == key@,
{
    (t.table.get::<bool>(key), Ghost(key@))
}

/// `mlua::Table::get::<usize>(key)`: the value under a string key when
/// it is a number that fits a `usize`. Unstated: what the table holds.
#[verifier::external_body]
pub(crate) fn table_get_usize(t: &LuaTable, key: &str) -> (r: (Result<usize, Error>, Ghost<Seq<char>>))
    ensures
        r.1@ == key@,
{
    (t.table.get::<usize>(key), Ghost(key@))
}

/// `mlua::Lua::globals().get::<Table>(name)`: the global `name` when it
/// is a table. Unstated: what the globals hold.
#[verifier::external_body]
pub(crate) fn global_table(lua: &Lua, name: &str) -> (r: Option<LuaTable>) {
    lua.globals().get::<Table>(name).ok().map(|t| LuaTable { lua: lua.clone(), table: t })
}

} // verus!
