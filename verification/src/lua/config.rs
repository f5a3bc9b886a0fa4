//! The `ttymap.opt` namespace of `init.lua`: after the script ran, the
//! host reads back the options it set, each one falling back to the
//! default it had. Options with fractional values (map centre, zoom)
//! are the host's to read.
use vstd::prelude::*;
use mlua::Lua;
use crate::lua::value::{LuaTable, LuaVal, global_table, table_get, table_get_bool, table_get_string, table_get_u64, table_get_usize};

verus! {

/// The options `init.lua` can set that hold no fractional value.
#[derive(Debug, Clone, PartialEq, Eq)]
pub struct ConfigFields {
    /// `opt.render.style`.
    pub style: String,
    /// `opt.render.language`.
    pub language: String,
    /// `opt.cache.tiles`.
    pub cache_tiles: bool,
    /// `opt.cache.memory_tiles`.
    pub memory_tiles: usize,
    /// `opt.geoip.on_startup`.
    pub geoip_on_startup: bool,
    /// `opt.geoip.endpoint`.
    pub geoip_endpoint: String,
    /// `opt.geoip.timeout_ms`.
    pub geoip_timeout_ms: u64,
}

/// What the script left in each of those options: `None` where the
/// option's table is missing or the value does not convert. `origins`
/// records, for each option in field order, the `(section, key)` it
/// was read from.
pub struct OptFields {
    pub style: Option<String>,
    pub language: Option<String>,
    pub cache_tiles: Option<bool>,
    pub memory_tiles: Option<usize>,
    pub geoip_on_startup: Option<bool>,
    pub geoip_endpoint: Option<String>,
    pub geoip_timeout_ms: Option<u64>,
    pub origins: Ghost<Seq<(Seq<char>, Seq<char>)>>,
}

/// Every option that was read came from its documented key:
/// `render.style`, `render.language`, `cache.tiles`,
/// `cache.memory_tiles`, `geoip.on_startup`, `geoip.endpoint`,
/// `geoip.timeout_ms`.
pub open spec fn spec_documented_origins(f: OptFields) -> bool {
    &&& f.origins@.len() == 7
    &&& f.style is Some ==> f.origins@[0] == ("render"@, "style"@)
    &&& f.language is Some ==> f.origins@[1] == ("render"@, "language"@)
    &&& f.cache_tiles is Some ==> f.origins@[2] == ("cache"@, "tiles"@)
    &&& f.memory_tiles is Some ==> f.origins@[3] == ("cache"@, "memory_tiles"@)
    &&& f.geoip_on_startup is Some ==> f.origins@[4] == ("geoip"@, "on_startup"@)
    &&& f.geoip_endpoint is Some ==> f.origins@[5] == ("geoip"@, "endpoint"@)
    &&& f.geoip_timeout_ms is Some ==> f.origins@[6] == ("geoip"@, "timeout_ms"@)
}

/// The value read, else the default.
pub open spec fn spec_or<T>(read: Option<T>, d: T) -> T {
    match read {
        Some(v) => v,
        None => d,
    }
}

/// The value read, else the default.
pub fn field_or_default<T>(read: Option<T>, d: T) -> (r: T)
    ensures
        r == spec_or(read, d),
{
    match read {
        Some(v) => v,
        None => d,
    }
}

/// The configuration after reading the options back: every option the
/// script set replaces its default, every other keeps it.
pub open spec fn spec_read_back(defaults: ConfigFields, f: OptFields) -> ConfigFields {
    ConfigFields {
        style: spec_or(f.style, defaults.style),
        language: spec_or(f.language, defaults.language),
        cache_tiles: spec_or(f.cache_tiles, defaults.cache_tiles),
        memory_tiles: spec_or(f.memory_tiles, defaults.memory_tiles),
        geoip_on_startup: spec_or(f.geoip_on_startup, defaults.geoip_on_startup),
        geoip_endpoint: spec_or(f.geoip_endpoint, defaults.geoip_endpoint),
        geoip_timeout_ms: spec_or(f.geoip_timeout_ms, defaults.geoip_timeout_ms),
    }
}

/// Apply the options read back to the defaults (see [`spec_read_back`]).
pub fn apply_opt_fields(defaults: ConfigFields, f: OptFields) -> (r: ConfigFields)
    ensures
        r == spec_read_back(defaults, f),
{
    let ConfigFields { style, language, cache_tiles, memory_tiles, geoip_on_startup, geoip_endpoint, geoip_timeout_ms } = defaults;
    ConfigFields {
        style: field_or_default(f.style, style),
        language: field_or_default(f.language, language),
        cache_tiles: field_or_default(f.cache_tiles, cache_tiles),
        memory_tiles: field_or_default(f.memory_tiles, memory_tiles),
        geoip_on_startup: field_or_default(f.geoip_on_startup, geoip_on_startup),
        geoip_endpoint: field_or_default(f.geoip_endpoint, geoip_endpoint),
        geoip_timeout_ms: field_or_default(f.geoip_timeout_ms, geoip_timeout_ms),
    }
}

/// The sub-table `opt[key]`, when it is a table, with the key read.
fn section(opt: &LuaTable, key: &str) -> (r: (Option<LuaTable>, Ghost<Seq<char>>))
    ensures
        r.1@ == key@,
{
    let (v, k) = table_get(opt, key);
    match v {
        Ok(LuaVal::Table(t)) => (Some(t), k),
        _ => (None, k),
    }
}

/// Read the options out of the `opt` table, each from its documented
/// key (see [`spec_documented_origins`]).
pub fn read_opt_fields(opt: &LuaTable) -> (r: OptFields)
    ensures
        spec_documented_origins(r),
{
    let (render, rk) = section(opt, "render");
    let (style, language, o0, o1) = match render {
        Some(t) => {
            let (a, ka) = table_get_string(&t, "style");
            let (b, kb) = table_get_string(&t, "language");
            (a.ok(), b.ok(), Ghost((rk@, ka@)), Ghost((rk@, kb@)))
        },
        None => (None, None, Ghost((rk@, Seq::empty())), Ghost((rk@, Seq::empty()))),
    };
    let (cache, ck) = section(opt, "cache");
    let (cache_tiles, memory_tiles, o2, o3) = match cache {
        Some(t) => {
            let (a, ka) = table_get_bool(&t, "tiles");
            let (b, kb) = table_get_usize(&t, "memory_tiles");
            (a.ok(), b.ok(), Ghost((ck@, ka@)), Ghost((ck@, kb@)))
        },
        None => (None, None, Ghost((ck@, Seq::empty())), Ghost((ck@, Seq::empty()))),
    };
    let (geoip, gk) = section(opt, "geoip");
    let (geoip_on_startup, geoip_endpoint, geoip_timeout_ms, o4, o5, o6) = match geoip {
        Some(t) => {
            let (a, ka) = table_get_bool(&t, "on_startup");
            let (b, kb) = table_get_string(&t, "endpoint");
            let (c, kc) = table_get_u64(&t, "timeout_ms");
            (a.ok(), b.ok(), c.ok(), Ghost((gk@, ka@)), Ghost((gk@, kb@)), Ghost((gk@, kc@)))
        },
        None => (None, None, None, Ghost((gk@, Seq::empty())), Ghost((gk@, Seq::empty())), Ghost((gk@, Seq::empty()))),
    };
    let ghost os: Seq<(Seq<char>, Seq<char>)> = seq![o0@, o1@, o2@, o3@, o4@, o5@, o6@];
    let origins: Ghost<Seq<(Seq<char>, Seq<char>)>> = Ghost(os);
    OptFields {
        style,
        language,
        cache_tiles,
        memory_tiles,
        geoip_on_startup,
        geoip_endpoint,
        geoip_timeout_ms,
        origins,
    }
}

/// An option the script set replaces its default, and one it left alone
/// keeps it: for every option, reading back gives the value read when
/// there is one, else the default, whatever the other options hold.
pub proof fn law_set_options_replace_defaults(defaults: ConfigFields, f: OptFields)
    ensures
        ({
            let c = spec_read_back(defaults, f);
            &&& (f.style matches Some(v) ==> c.style == v) && (f.style is None ==> c.style == defaults.style)
            &&& (f.language matches Some(v) ==> c.language == v) && (f.language is None ==> c.language == defaults.language)
            &&& (f.cache_tiles matches Some(v) ==> c.cache_tiles == v)
                && (f.cache_tiles is None ==> c.cache_tiles == defaults.cache_tiles)
            &&& (f.memory_tiles matches Some(v) ==> c.memory_tiles == v)
                && (f.memory_tiles is None ==> c.memory_tiles == defaults.memory_tiles)
            &&& (f.geoip_on_startup matches Some(v) ==> c.geoip_on_startup == v)
                && (f.geoip_on_startup is None ==> c.geoip_on_startup == defaults.geoip_on_startup)
            &&& (f.geoip_endpoint matches Some(v) ==> c.geoip_endpoint == v)
                && (f.geoip_endpoint is None ==> c.geoip_endpoint == defaults.geoip_endpoint)
            &&& (f.geoip_timeout_ms matches Some(v) ==> c.geoip_timeout_ms == v)
                && (f.geoip_timeout_ms is None ==> c.geoip_timeout_ms == defaults.geoip_timeout_ms)
        }),
{
}

/// Read back the options `init.lua` left in `ttymap.opt`, over
/// `defaults`: an error when `ttymap` or `ttymap.opt` is not a table;
/// otherwise the defaults with every option the script set replaced
/// (see [`spec_read_back`]).
pub fn read_back(lua: &Lua, defaults: ConfigFields) -> (r: Result<ConfigFields, String>)
    ensures
        r matches Ok(c) ==> exists|f: OptFields| spec_documented_origins(f) && c == spec_read_back(defaults, f),
{
    let ttymap = match global_table(lua, "ttymap") {
        Some(t) => t,
        None => return Err("ttymap: the ttymap global is not a table".to_owned()),
    };
    let opt = match section(&ttymap, "opt").0 {
        Some(t) => t,
        None => return Err("ttymap: ttymap.opt is not a table".to_owned()),
    };
    let f = read_opt_fields(&opt);
    let ghost g = f;
    let c = apply_opt_fields(defaults, f);
    assert(spec_documented_origins(g) && c == spec_read_back(defaults, g));
    Ok(c)
}

} // verus!
