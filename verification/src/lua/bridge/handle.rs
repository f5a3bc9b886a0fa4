//! Dispatch plumbing shared by the Lua adapters: a module table kept
//! alive together with its Lua state, and the three-way outcome of
//! calling one of its methods.
use vstd::prelude::*;
use mlua::Lua;
use crate::lua::value::{CallArg, LuaTable, LuaVal, function_call, table_get_function, table_sequence};

verus! {

/// Outcome of [`LuaHandle::try_call`].
pub enum CallOutcome<R> {
    /// The method exists and returned a value.
    Returned(R),
    /// `module[method]` is absent or not a function.
    Missing,
    /// The call raised an error.
    Errored,
}

/// A plugin's module table (which keeps its Lua state alive), read for
/// long-lived dispatch.
pub struct LuaHandle {
    /// Identifier used when reporting the plugin (its file stem).
    pub log_tag: String,
    pub module: LuaTable,
}

impl LuaHandle {
    /// Keep `table` for long-lived dispatch.
    pub fn new(table: LuaTable, log_tag: String) -> (r: Self)
        ensures
            r.log_tag == log_tag,
            r.module == table,
    {
        LuaHandle { log_tag, module: table }
    }

    /// The module table.
    pub fn module(&self) -> (r: &LuaTable)
        ensures
            *r == self.module,
    {
        &self.module
    }

    /// The Lua state the module lives in.
    pub fn lua(&self) -> (r: &Lua)
        ensures
            *r == self.module.spec_state(),
    {
        self.module.state()
    }

    /// The identifier used when reporting this plugin.
    pub fn log_tag(&self) -> (r: &str)
        ensures
            r@ == self.log_tag@,
    {
        self.log_tag.as_str()
    }

    /// Call `module[method](arg)`: `Missing` when the field is absent
    /// or not a function, `Errored` when the call raised, otherwise its
    /// first result. What the script does is up to the script.
    pub fn try_call(&self, method: &str, arg: CallArg) -> (r: CallOutcome<LuaVal>) {
        match table_get_function(&self.module, method) {
            Err(_) => CallOutcome::Missing,
            Ok(f) => match function_call(&f, arg) {
                Ok(v) => CallOutcome::Returned(v),
                Err(_) => CallOutcome::Errored,
            },
        }
    }
}

/// A call result read as a Lua array: a returned table gives its
/// sequence, anything else is a conversion error.
pub fn outcome_as_sequence(o: CallOutcome<LuaVal>) -> (r: CallOutcome<Vec<LuaVal>>)
    ensures
        (o is Missing) <==> (r is Missing),
        (o is Errored) ==> (r is Errored),
        (o matches CallOutcome::Returned(v) && !(v is Table)) ==> (r is Errored),
{
    match o {
        CallOutcome::Missing => CallOutcome::Missing,
        CallOutcome::Errored => CallOutcome::Errored,
        CallOutcome::Returned(v) => match v {
            LuaVal::Table(t) => CallOutcome::Returned(table_sequence(&t)),
            _ => CallOutcome::Errored,
        },
    }
}

} // verus!
