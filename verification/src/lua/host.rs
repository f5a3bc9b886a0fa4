//! Per-component host services reachable from a module-based plugin
//! through the `host` global: `host:fetch_url(url)` starts a background
//! fetch and returns a [`LuaJob`]; `host:jump(lon, lat)` queues a
//! recentre request that the owning component drains after each
//! callback.
use vstd::prelude::*;
use std::sync::mpsc::{Receiver, Sender};
use crate::lua::sender::{channel, channel_send};

pub use crate::lua::ttymap::LuaJob;

verus! {

/// Per-component host handle: the tag fetches identify themselves
/// with, and the sending end of the jump-request channel. `P` is the
/// map position a jump targets.
#[verifier::reject_recursive_types(P)]
pub struct LuaHost<P> {
    pub tag: String,
    pub jump_tx: Sender<P>,
}

impl<P> LuaHost<P> {
    /// A fresh host and the receiving end of its jump channel, which
    /// belongs to the component that owns this host's Lua state.
    pub fn new(tag: &str) -> (r: (Self, Receiver<P>))
        ensures
            r.0.tag@ == tag@,
    {
        let (jump_tx, jump_rx) = channel();
        (LuaHost { tag: tag.to_owned(), jump_tx }, jump_rx)
    }

    /// `host:jump(lon, lat)`: queue a recentre on `target`. A closed
    /// channel (the component is being torn down) is ignored.
    pub fn jump(&self, target: P) {
        let _ = channel_send(&self.jump_tx, target);
    }
}

} // verus!
