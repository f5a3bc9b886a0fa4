//! The `ttymap.keymap` namespace of `init.lua`, the declarative user
//! config: `ttymap.keymap.set(action, keys)` records an override for an
//! action's bindings, `ttymap.keymap.del(action)` drops it.
use vstd::prelude::*;
use crate::input::keymap::{KeybindingOverrides, string_views};
use crate::lua::bridge::parse::spec_debug_text;
use crate::lua::value::{LuaVal, table_sequence_strings};
use crate::text::{concat, str_is};

verus! {

/// The overrides without any entry for `action`, order kept.
pub open spec fn spec_without(o: Seq<(String, Vec<String>)>, action: Seq<char>) -> Seq<(String, Vec<String>)>
    decreases o.len(),
{
    if o.len() == 0 {
        Seq::empty()
    } else {
        let rest = spec_without(o.drop_last(), action);
        if o.last().0@ == action {
            rest
        } else {
            rest.push(o.last())
        }
    }
}

/// `ttymap.keymap.del(action)`: forget the override for `action`.
pub fn keymap_del(overrides: &mut KeybindingOverrides, action: &str)
    ensures
        final(overrides)@ == spec_without(old(overrides)@, action@),
{
    let ghost all = overrides@;
    let n = overrides.len();
    let mut rest: Vec<(String, Vec<String>)> = Vec::new();
    std::mem::swap(&mut rest, overrides);
    let mut i: usize = 0;
    assert(all.skip(0) =~= all);
    while rest.len() > 0
        invariant
            all.len() == n,
            i <= n,
            rest@ == all.skip(i as int),
            overrides@ == spec_without(all.take(i as int), action@),
        decreases rest@.len(),
    {
        let e = rest.remove(0);
        proof {
            assert(all.take(i + 1).drop_last() =~= all.take(i as int));
            assert(all.take(i + 1).last() == e);
        }
        if !str_is(e.0.as_str(), action) {
            overrides.push(e);
        }
        i = i + 1;
        assert(rest@ =~= all.skip(i as int));
    }
    assert(all.take(i as int) =~= all);
}

/// `ttymap.keymap.set(action, keys)`: the override for `action` becomes
/// `keys`, replacing any earlier one.
pub fn keymap_set(overrides: &mut KeybindingOverrides, action: String, keys: Vec<String>)
    ensures
        final(overrides)@ == spec_without(old(overrides)@, action@).push((action, keys)),
{
    keymap_del(overrides, action.as_str());
    overrides.push((action, keys));
}

/// The message `ttymap.keymap.set` raises for a `keys` value that is
/// neither a string nor an array.
pub open spec fn spec_keys_type_error(v: LuaVal) -> Seq<char> {
    "ttymap.keymap.set expected string or array of strings, got "@ + spec_debug_text(v)
}

/// The debug rendering of a value that is neither a string nor a table.
fn debug_text(v: &LuaVal) -> (r: String)
    ensures
        r@ == spec_debug_text(*v),
{
    match v {
        LuaVal::Nil => "Nil".to_owned(),
        LuaVal::Boolean(b) => if *b {
            "Boolean(true)".to_owned()
        } else {
            "Boolean(false)".to_owned()
        },
        LuaVal::Integer(_, d) => d.clone(),
        LuaVal::Function(d) => d.clone(),
        LuaVal::Other(d) => d.clone(),
        _ => String::new(),
    }
}

/// Coerce the `keys` argument of `ttymap.keymap.set(action, keys)`
/// (see [`keys_from_val`]).
pub fn keys_to_vec(keys: LuaVal) -> (r: Result<Vec<String>, String>)
    ensures
        match keys {
            LuaVal::Str(Some(s)) => r matches Ok(v) && string_views(v@) == seq![s@],
            LuaVal::Str(None) => r is Err,
            LuaVal::Table(_) => r is Ok,
            _ => r matches Err(m) && m@ == spec_keys_type_error(keys),
        },
{
    keys_from_val(keys)
}

/// The bindings a `keys` value gives: a bare string is one binding; an
/// array gives its string entries; an undecodable string or any other
/// value is an error raised to Lua.
pub fn keys_from_val(keys: LuaVal) -> (r: Result<Vec<String>, String>)
    ensures
        match keys {
            LuaVal::Str(Some(s)) => r matches Ok(v) && string_views(v@) == seq![s@],
            LuaVal::Str(None) => r is Err,
            LuaVal::Table(_) => r is Ok,
            _ => r matches Err(m) && m@ == spec_keys_type_error(keys),
        },
{
    match keys {
        LuaVal::Str(Some(s)) => {
            let ghost sv = s@;
            let v = vec![s];
            assert(string_views(v@) =~= seq![sv]);
            Ok(v)
        },
        LuaVal::Str(None) => Err("ttymap.keymap.set: key string is not valid UTF-8".to_owned()),
        LuaVal::Table(t) => Ok(table_sequence_strings(&t)),
        other => {
            let d = debug_text(&other);
            Err(concat("ttymap.keymap.set expected string or array of strings, got ", d.as_str()))
        },
    }
}

} // verus!
