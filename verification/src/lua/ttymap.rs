//! Host state behind the runtime `ttymap` Lua global, and the logic of
//! `ttymap.http`'s disk-cached fetches.
//!
//! `LuaHostShared` is the mostly-immutable runtime data every plugin
//! can query (`ttymap.tile:attribution()`, `ttymap.config:
//! geoip_endpoint()`, `ttymap.help:*`). `LuaJob` is the handle a fetch
//! returns to Lua. The cache of `fetch_cached` is keyed by the FNV-1a
//! hash of the URL, so the key is the same in every run.
use vstd::prelude::*;
use std::sync::Arc;
use std::sync::mpsc::Receiver;
use crate::lua::sender::channel_try_recv;
use crate::text::{concat, string_from_chars};
use vstd::string::StringSliceAdditionalSpecFns;

verus! {

/// One plugin's help-relevant metadata, surfaced through
/// `ttymap.help:palette_entries()`.
#[derive(Debug, Clone, PartialEq, Eq)]
pub struct PluginEntry {
    pub name: String,
    pub key: String,
    pub label: String,
    /// Plugin-local keybindings from `module.footer_hints`; empty when
    /// the script omits the field.
    pub footer_hints: Vec<(String, String)>,
}

/// Shared runtime data every Lua plugin can query via the `ttymap`
/// global.
#[derive(Debug)]
pub struct LuaHostShared {
    /// Tile provider's attribution string, if the backend has one.
    pub attribution: Option<String>,
    /// IP-geolocation endpoint URL.
    pub geoip_endpoint: String,
    /// `(key-binding, action-label)` rows for the built-in map actions.
    pub keymap_entries: Vec<(String, String)>,
    /// Per-plugin metadata, appended during plugin registration.
    pub palette_entries: Vec<PluginEntry>,
}

impl LuaHostShared {
    pub fn new(
        attribution: Option<String>,
        geoip_endpoint: String,
        keymap_entries: Vec<(String, String)>,
    ) -> (r: Self)
        ensures
            r.attribution == attribution,
            r.geoip_endpoint == geoip_endpoint,
            r.keymap_entries == keymap_entries,
            r.palette_entries@ == Seq::<PluginEntry>::empty(),
    {
        LuaHostShared { attribution, geoip_endpoint, keymap_entries, palette_entries: Vec::new() }
    }

    /// Append one plugin's metadata to the snapshot.
    pub fn push_palette_entry(&mut self, entry: PluginEntry)
        ensures
            final(self).palette_entries@ == old(self).palette_entries@.push(entry),
            final(self).attribution == old(self).attribution,
            final(self).geoip_endpoint == old(self).geoip_endpoint,
            final(self).keymap_entries == old(self).keymap_entries,
    {
        self.palette_entries.push(entry);
    }

    /// All-empty host state for tests and standalone Lua VMs.
    pub fn empty() -> (r: Arc<Self>)
        ensures
            r.attribution is None,
            r.geoip_endpoint@ == Seq::<char>::empty(),
            r.keymap_entries@ == Seq::<(String, String)>::empty(),
            r.palette_entries@ == Seq::<PluginEntry>::empty(),
    {
        Arc::new(Self::new(None, String::new(), Vec::new()))
    }
}

// ── Fetch cache ─────────────────────────────────────────────────────

/// FNV-1a 64-bit offset basis.
pub const FNV_OFFSET: u64 = 0xcbf29ce484222325;
/// FNV-1a 64-bit prime.
pub const FNV_PRIME: u64 = 0x100000001b3;

/// FNV-1a 64-bit hash of a byte string: start from the offset basis;
/// per byte, xor it in, then multiply by the prime modulo 2^64.
pub open spec fn spec_fnv1a(bytes: Seq<u8>) -> u64
    decreases bytes.len(),
{
    if bytes.len() == 0 {
        FNV_OFFSET
    } else {
        (spec_fnv1a(bytes.drop_last()) ^ (bytes.last() as u64)).wrapping_mul(FNV_PRIME)
    }
}

/// FNV-1a 64-bit hash of `bytes`.
pub fn fnv1a(bytes: &[u8]) -> (r: u64)
    ensures
        r == spec_fnv1a(bytes@),
{
    let mut hash: u64 = FNV_OFFSET;
    let mut i: usize = 0;
    while i < bytes.len()
        invariant
            i <= bytes@.len(),
            hash == spec_fnv1a(bytes@.take(i as int)),
        decreases bytes@.len() - i,
    {
        assert(bytes@.take(i + 1).drop_last() =~= bytes@.take(i as int));
        hash = (hash ^ (bytes[i] as u64)).wrapping_mul(FNV_PRIME);
        i = i + 1;
    }
    assert(bytes@.take(bytes@.len() as int) =~= bytes@);
    hash
}

/// Lowercase hex digit of a nibble.
pub open spec fn spec_hex_digit(n: u64) -> char {
    if n < 10 {
        ((48 + n) as u8) as char
    } else {
        ((87 + n) as u8) as char
    }
}

/// Nibble `i` of `h`, counting from the most significant.
pub open spec fn spec_nibble(h: u64, i: int) -> u64 {
    (h >> ((60 - 4 * i) as u64)) & 0xf
}

/// `h` as 16 lowercase hex digits, most significant first (`{:016x}`).
pub open spec fn spec_hex16(h: u64) -> Seq<char> {
    Seq::new(16, |i: int| spec_hex_digit(spec_nibble(h, i)))
}

fn hex_digit(n: u64) -> (r: char)
    requires
        n < 16,
    ensures
        r == spec_hex_digit(n),
{
    let b: u8 = n as u8;
    if n < 10 {
        (48u8 + b) as char
    } else {
        (87u8 + b) as char
    }
}

/// `h` as 16 lowercase hex digits.
pub fn hex16(h: u64) -> (r: String)
    ensures
        r@ == spec_hex16(h),
{
    let mut cs: Vec<char> = Vec::new();
    let mut i: u64 = 0;
    while i < 16
        invariant
            i <= 16,
            cs@.len() == i,
            forall|j: int| 0 <= j < i ==> cs@[j] == spec_hex_digit(spec_nibble(h, j)),
        decreases 16 - i,
    {
        let shift: u64 = 60 - 4 * i;
        let n: u64 = (h >> shift) & 0xf;
        assert(n < 16) by (bit_vector)
            requires
                n == (h >> shift) & 0xf,
        ;
        cs.push(hex_digit(n));
        i = i + 1;
    }
    assert(cs@ =~= spec_hex16(h));
    string_from_chars(&cs)
}

/// The cache key of a URL: its FNV-1a hash as 16 hex digits.
pub open spec fn spec_http_cache_key(url: &str) -> Seq<char> {
    spec_hex16(spec_fnv1a(url.spec_bytes()))
}

/// The cache key of `url`.
pub fn http_cache_key(url: &str) -> (r: String)
    ensures
        r@ == spec_http_cache_key(url),
{
    hex16(fnv1a(url.as_bytes()))
}

/// The file, inside the `lua-http` cache directory, that holds the
/// cached body of `url`: `<key>.txt`.
pub fn http_cache_file_name(url: &str) -> (r: String)
    ensures
        r@ == spec_http_cache_key(url) + ".txt"@,
{
    let key = http_cache_key(url);
    concat(key.as_str(), ".txt")
}

/// Whether a cached body may be served without touching the network:
/// only for a cached fetch whose copy is younger than its TTL. `age` is
/// `None` when there is no readable copy.
pub open spec fn spec_cache_fresh(ttl_secs: Option<u64>, age_secs: Option<u64>) -> bool {
    match (ttl_secs, age_secs) {
        (Some(ttl), Some(age)) => age < ttl,
        _ => false,
    }
}

pub fn cache_is_fresh(ttl_secs: Option<u64>, age_secs: Option<u64>) -> (r: bool)
    ensures
        r == spec_cache_fresh(ttl_secs, age_secs),
{
    match (ttl_secs, age_secs) {
        (Some(ttl), Some(age)) => age < ttl,
        _ => false,
    }
}

/// What a fetch does once the network answered.
#[derive(Debug, Clone, Copy, PartialEq, Eq, Structural)]
pub enum FetchStep {
    /// Hand the body to the plugin; first write it to the cache file
    /// when the fetch is a cached one.
    Deliver { write_cache: bool },
    /// The network failed: hand the plugin the stale cached copy.
    ServeStale,
    /// Nothing reaches the plugin.
    Nothing,
}

/// The step after the network answered: a UTF-8 body is delivered (and
/// written through when cached); a non-UTF-8 body is dropped; a failed
/// fetch falls back to the stale copy when the fetch is cached.
pub open spec fn spec_after_fetch(fetched: bool, utf8: bool, cached: bool) -> FetchStep {
    if fetched {
        if utf8 {
            FetchStep::Deliver { write_cache: cached }
        } else {
            FetchStep::Nothing
        }
    } else if cached {
        FetchStep::ServeStale
    } else {
        FetchStep::Nothing
    }
}

pub fn after_fetch(fetched: bool, utf8: bool, cached: bool) -> (r: FetchStep)
    ensures
        r == spec_after_fetch(fetched, utf8, cached),
{
    if fetched {
        if utf8 {
            FetchStep::Deliver { write_cache: cached }
        } else {
            FetchStep::Nothing
        }
    } else if cached {
        FetchStep::ServeStale
    } else {
        FetchStep::Nothing
    }
}

/// One-shot fetch handle returned to Lua. The body arrives on `rx`
/// from the thread doing the fetch.
pub struct LuaJob {
    pub rx: Receiver<String>,
}

impl LuaJob {
    /// A job whose body will arrive on `rx`.
    pub fn new(rx: Receiver<String>) -> (r: Self)
        ensures
            r.rx == rx,
    {
        LuaJob { rx }
    }

    /// `job:try_take()`: the body once it has arrived; `None` while the
    /// fetch is in flight, after it failed, or once the body was taken.
    pub fn try_take(&mut self) -> (r: Option<String>) {
        channel_try_recv(&self.rx)
    }
}

} // verus!
