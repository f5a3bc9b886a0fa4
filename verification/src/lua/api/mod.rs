//! Shared host state behind the runtime `ttymap` Lua global, and the
//! checks the plugin-facing registration surface applies.
//!
//! `LuaHostShared` is the mostly-immutable runtime data every plugin
//! can query (attribution, geoip endpoint, keymap rows, per-plugin
//! help metadata) plus the ring of transient notifications posted via
//! `ttymap.notify(msg, opts)`.
use vstd::prelude::*;
use std::collections::VecDeque;
use std::sync::Arc;
use crate::text::str_chars;

pub mod host_config;
pub mod host_log;

verus! {

/// Maximum number of pending notifications retained in the ring. On
/// overflow the oldest entry is dropped so newer signals are never
/// starved.
pub const NOTIFY_RING_CAP: usize = 16;

/// One transient status message awaiting display. `posted_at_ms` is
/// the host clock reading (milliseconds) when it was posted; `level`
/// is a raw string (`"info"` / `"warn"` / `"error"`).
#[derive(Debug, Clone, PartialEq, Eq)]
pub struct NotifyEntry {
    pub message: String,
    pub level: String,
    pub posted_at_ms: u64,
}

/// One plugin's help-relevant metadata.
#[derive(Debug, Clone, PartialEq, Eq)]
pub struct PluginEntry {
    pub name: String,
    pub key: String,
    pub label: String,
}

/// One row of `ttymap.api.notify.recent(ttl_ms)`.
#[derive(Debug, Clone, PartialEq, Eq)]
pub struct RecentNotification {
    pub message: String,
    pub level: String,
    pub age_ms: u64,
}

/// Shared runtime data every Lua plugin can query via the `ttymap`
/// global.
#[derive(Debug)]
pub struct LuaHostShared {
    /// Tile provider's attribution string, if the backend has one.
    pub attribution: Option<String>,
    /// IP-geolocation endpoint URL.
    pub geoip_endpoint: String,
    /// `(key-binding, action-label)` rows for the built-in map actions.
    pub keymap_entries: Vec<(String, String)>,
    /// Per-plugin metadata, appended during plugin registration.
    pub palette_entries: Vec<PluginEntry>,
    /// Transient status messages, oldest first; at most
    /// [`NOTIFY_RING_CAP`] of them.
    pub notifications: VecDeque<NotifyEntry>,
}

/// The ring after posting `e`: the oldest entry goes when the ring is full.
pub open spec fn spec_ring_push(ring: Seq<NotifyEntry>, e: NotifyEntry) -> Seq<NotifyEntry> {
    if ring.len() >= NOTIFY_RING_CAP {
        ring.drop_first().push(e)
    } else {
        ring.push(e)
    }
}

/// The ring after posting every entry of `posted`, in order, starting empty.
pub open spec fn spec_ring_after(posted: Seq<NotifyEntry>) -> Seq<NotifyEntry>
    decreases posted.len(),
{
    if posted.len() == 0 {
        Seq::empty()
    } else {
        spec_ring_push(spec_ring_after(posted.drop_last()), posted.last())
    }
}

/// Age of an entry at clock reading `now_ms` (never negative).
pub open spec fn spec_age(now_ms: u64, posted_at_ms: u64) -> u64 {
    if now_ms >= posted_at_ms {
        (now_ms - posted_at_ms) as u64
    } else {
        0
    }
}

/// The `recent(ttl_ms)` rows: entries younger than `ttl_ms`, oldest first.
pub open spec fn spec_recent(ring: Seq<NotifyEntry>, now_ms: u64, ttl_ms: u64) -> Seq<RecentNotification>
    decreases ring.len(),
{
    if ring.len() == 0 {
        Seq::empty()
    } else {
        let rest = spec_recent(ring.drop_last(), now_ms, ttl_ms);
        let e = ring.last();
        let age = spec_age(now_ms, e.posted_at_ms);
        if age < ttl_ms {
            rest.push(RecentNotification { message: e.message, level: e.level, age_ms: age })
        } else {
            rest
        }
    }
}

impl LuaHostShared {
    pub open spec fn wf(&self) -> bool {
        self.notifications@.len() <= NOTIFY_RING_CAP
    }

    pub fn new(
        attribution: Option<String>,
        geoip_endpoint: String,
        keymap_entries: Vec<(String, String)>,
    ) -> (r: Self)
        ensures
            r.wf(),
            r.attribution == attribution,
            r.geoip_endpoint == geoip_endpoint,
            r.keymap_entries == keymap_entries,
            r.palette_entries@ == Seq::<PluginEntry>::empty(),
            r.notifications@ == Seq::<NotifyEntry>::empty(),
    {
        Self {
            attribution,
            geoip_endpoint,
            keymap_entries,
            palette_entries: Vec::new(),
            notifications: VecDeque::with_capacity(NOTIFY_RING_CAP),
        }
    }

    /// Append one notification to the ring. The oldest entry is
    /// evicted on overflow so a flurry never starves the most recent
    /// signal.
    pub fn push_notification(&mut self, entry: NotifyEntry)
        requires
            old(self).wf(),
        ensures
            final(self).wf(),
            final(self).notifications@ == spec_ring_push(old(self).notifications@, entry),
            final(self).palette_entries == old(self).palette_entries,
            final(self).attribution == old(self).attribution,
            final(self).geoip_endpoint == old(self).geoip_endpoint,
            final(self).keymap_entries == old(self).keymap_entries,
    {
        if self.notifications.len() >= NOTIFY_RING_CAP {
            let _ = self.notifications.pop_front();
        }
        self.notifications.push_back(entry);
    }

    /// Append one plugin's metadata to the snapshot.
    pub fn push_palette_entry(&mut self, entry: PluginEntry)
        ensures
            final(self).palette_entries@ == old(self).palette_entries@.push(entry),
            final(self).notifications == old(self).notifications,
            final(self).attribution == old(self).attribution,
            final(self).geoip_endpoint == old(self).geoip_endpoint,
            final(self).keymap_entries == old(self).keymap_entries,
    {
        self.palette_entries.push(entry);
    }

    /// All-empty host state for tests and registration-time loads that
    /// don't need real runtime data.
    pub fn empty() -> (r: Arc<Self>)
        ensures
            r.wf(),
            r.attribution is None,
            r.geoip_endpoint@ == Seq::<char>::empty(),
            r.keymap_entries@ == Seq::<(String, String)>::empty(),
            r.palette_entries@ == Seq::<PluginEntry>::empty(),
            r.notifications@ == Seq::<NotifyEntry>::empty(),
    {
        Arc::new(Self::new(None, String::new(), Vec::new()))
    }

    /// The notifications still within `ttl_ms` of clock reading
    /// `now_ms`, oldest first, each with its age. A zero TTL shows
    /// nothing.
    pub fn recent_notifications(&self, now_ms: u64, ttl_ms: u64) -> (r: Vec<RecentNotification>)
        ensures
            r@ == spec_recent(self.notifications@, now_ms, ttl_ms),
    {
        let mut out: Vec<RecentNotification> = Vec::new();
        let mut i: usize = 0;
        while i < self.notifications.len()
            invariant
                i <= self.notifications@.len(),
                out@ == spec_recent(self.notifications@.take(i as int), now_ms, ttl_ms),
            decreases self.notifications@.len() - i,
        {
            assert(self.notifications@.take(i + 1).drop_last() =~= self.notifications@.take(i as int));
            let e = &self.notifications[i];
            let age: u64 = now_ms.saturating_sub(e.posted_at_ms);
            if age < ttl_ms {
                out.push(RecentNotification { message: e.message.clone(), level: e.level.clone(), age_ms: age });
            }
            i = i + 1;
        }
        assert(self.notifications@.take(self.notifications@.len() as int) =~= self.notifications@);
        out
    }
}

proof fn lemma_ring_len(posted: Seq<NotifyEntry>)
    ensures
        spec_ring_after(posted).len() == if posted.len() < NOTIFY_RING_CAP { posted.len() } else { NOTIFY_RING_CAP as nat },
    decreases posted.len(),
{
    if posted.len() > 0 {
        lemma_ring_len(posted.drop_last());
    }
}

/// The ring always holds exactly the most recent notifications: after
/// posting any sequence of entries it is the last (at most
/// [`NOTIFY_RING_CAP`]) of them, oldest first, so the newest is never
/// lost.
pub proof fn law_ring_keeps_newest(posted: Seq<NotifyEntry>)
    ensures
        spec_ring_after(posted) == posted.skip(
            if posted.len() <= NOTIFY_RING_CAP { 0 } else { posted.len() - NOTIFY_RING_CAP },
        ),
        spec_ring_after(posted).len() <= NOTIFY_RING_CAP,
    decreases posted.len(),
{
    lemma_ring_len(posted);
    if posted.len() > 0 {
        let init = posted.drop_last();
        law_ring_keeps_newest(init);
        let prev = spec_ring_after(init);
        if prev.len() >= NOTIFY_RING_CAP {
            assert(prev.drop_first().push(posted.last()) =~= posted.skip(posted.len() - NOTIFY_RING_CAP));
        } else {
            assert(prev.push(posted.last()) =~= posted.skip(
                if posted.len() <= NOTIFY_RING_CAP { 0 } else { posted.len() - NOTIFY_RING_CAP },
            ));
        }
    }
}

// ── Registration checks ─────────────────────────────────────────────

/// `ttymap.register_palette_command(spec)`: the label and the invoke
/// callback are required; the hint defaults to the empty string. On
/// success yields `(label, hint)`; otherwise the error message.
pub fn palette_command_fields(
    label: Option<String>,
    hint: Option<String>,
    has_invoke: bool,
) -> (r: Result<(String, String), String>)
    ensures
        match r {
            Ok((l, h)) => label == Some(l) && has_invoke && h@ == (match hint {
                Some(x) => x@,
                None => Seq::<char>::empty(),
            }),
            Err(msg) => (label is None && msg@ == "ttymap.register_palette_command: spec.label is required"@)
                || (label is Some && !has_invoke
                && msg@ == "ttymap.register_palette_command: spec.invoke (a function) is required"@),
        },
        r is Ok <==> (label is Some && has_invoke),
{
    let label = match label {
        Some(l) => l,
        None => return Err("ttymap.register_palette_command: spec.label is required".to_owned()),
    };
    let hint = match hint {
        Some(h) => h,
        None => String::new(),
    };
    if !has_invoke {
        return Err("ttymap.register_palette_command: spec.invoke (a function) is required".to_owned());
    }
    Ok((label, hint))
}

/// `ttymap.register_keybind(key, callback)`: the activation key is the
/// first character of `key`, which must not be empty.
pub fn keybind_char(key: &str) -> (r: Result<char, String>)
    ensures
        match r {
            Ok(c) => key@.len() > 0 && c == key@[0],
            Err(msg) => key@.len() == 0 && msg@ == "ttymap.register_keybind: key must be a non-empty string"@,
        },
{
    let cs = str_chars(key);
    if cs.len() == 0 {
        Err("ttymap.register_keybind: key must be a non-empty string".to_owned())
    } else {
        Ok(cs[0])
    }
}

/// `ttymap.on_event(name, fn)`: the event name must not be empty.
pub fn check_event_name(name: &str) -> (r: Result<(), String>)
    ensures
        match r {
            Ok(_) => name@.len() > 0,
            Err(msg) => name@.len() == 0 && msg@ == "ttymap.on_event: event name must be a non-empty string"@,
        },
{
    let cs = str_chars(name);
    if cs.len() == 0 {
        Err("ttymap.on_event: event name must be a non-empty string".to_owned())
    } else {
        Ok(())
    }
}

/// `ttymap.notify(msg, opts)`: the level is `opts.level`, `"info"` by default.
pub fn notify_level(level: Option<String>) -> (r: String)
    ensures
        r@ == (match level {
            Some(l) => l@,
            None => "info"@,
        }),
{
    match level {
        Some(l) => l,
        None => "info".to_owned(),
    }
}

} // verus!
