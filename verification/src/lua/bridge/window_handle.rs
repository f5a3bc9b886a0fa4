//! `ttymap.api.window.open(spec) -> WindowHandle`: the Lua-facing
//! handle of a pushed window, whose only method is an idempotent
//! `close()`.
//!
//! The handle and the window share a close flag; `close()` raises it
//! and the window lowers it on its next poll tick, popping itself off
//! the stack when it was raised. The flag is shared between the Lua
//! side and the host, so what a `take` reads depends on every holder.
use vstd::prelude::*;
use std::sync::Arc;
use std::sync::atomic::{AtomicBool, Ordering};

verus! {

/// Shared close flag between the Lua-side handle and the host-side
/// component. Clones share one flag.
#[derive(Clone, Default)]
pub struct CloseFlag(pub Arc<AtomicBool>);

impl CloseFlag {
    /// A lowered flag.
    pub fn new() -> (r: Self) {
        CloseFlag(Arc::new(AtomicBool::new(false)))
    }

    /// Raise the flag. Raising a raised flag changes nothing.
    pub fn request(&self) {
        self.0.store(true, Ordering::Relaxed);
    }

    /// Lower the flag and report whether it was raised.
    pub fn take(&self) -> (r: bool) {
        self.0.swap(false, Ordering::Relaxed)
    }
}

/// Lua-facing handle returned by `ttymap.api.window.open(...)`.
pub struct WindowHandle {
    pub flag: CloseFlag,
}

impl WindowHandle {
    /// A handle that signals close through the shared `flag`.
    pub fn new(flag: CloseFlag) -> (r: Self)
        ensures
            r.flag == flag,
    {
        WindowHandle { flag }
    }

    /// `handle:close()`: ask the window to close. Idempotent.
    pub fn close(&self) {
        self.flag.request();
    }
}

/// Wraps a component so that it closes on the poll tick after its
/// shared flag is raised; every other call goes to `inner`.
pub struct CloseFlagWrapper<C> {
    pub inner: C,
    pub flag: CloseFlag,
}

impl<C> CloseFlagWrapper<C> {
    pub fn new(inner: C, flag: CloseFlag) -> (r: Self)
        ensures
            r.inner == inner,
            r.flag == flag,
    {
        CloseFlagWrapper { inner, flag }
    }

    /// The poll-tick step after `inner` has polled: `true` when the
    /// window must close now, because the flag was raised since the
    /// last tick.
    pub fn poll_close(&self) -> (r: bool) {
        self.flag.take()
    }

    /// The wrapped component.
    pub fn inner(&self) -> (r: &C)
        ensures
            *r == self.inner,
    {
        &self.inner
    }
}

} // verus!
