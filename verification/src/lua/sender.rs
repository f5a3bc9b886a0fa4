//! Boundary type that hides the application event channel from the
//! rest of the Lua subsystem: plugins emit a [`UserIntent`]; the wrap
//! into an [`AppEvent`] happens here.
//!
//! Also home of the channel primitives the Lua plumbing is built on.
//! What a receiver yields depends on what other threads sent and when,
//! so nothing is stated of it.
use vstd::prelude::*;
use std::sync::mpsc::{Receiver, Sender};
use crate::frontend::{AppEvent, UserIntent};

verus! {

#[verifier::external_type_specification]
#[verifier::external_body]
#[verifier::reject_recursive_types(T)]
pub struct ExSender<T>(Sender<T>);

#[verifier::external_type_specification]
#[verifier::external_body]
#[verifier::reject_recursive_types(T)]
pub struct ExReceiver<T>(Receiver<T>);

/// `Clone` for `std::sync::mpsc::Sender`: another handle onto the same
/// channel. Nothing is stated of it beyond its type.
pub assume_specification<T>[ <Sender<T> as Clone>::clone ](s: &Sender<T>) -> Sender<T>;

/// `std::sync::mpsc::channel`: a fresh channel's two ends.
#[verifier::external_body]
pub(crate) fn channel<T>() -> (r: (Sender<T>, Receiver<T>)) {
    std::sync::mpsc::channel()
}

/// `std::sync::mpsc::Sender::send`: queue `value` for the receiver.
/// The result (whether the receiving end is still alive) is not
/// stated: only the running program knows it.
#[verifier::external_body]
pub(crate) fn channel_send<T>(tx: &Sender<T>, value: T) -> (r: bool) {
    tx.send(value).is_ok()
}

/// `std::sync::mpsc::Receiver::try_recv`: the next queued value, if one
/// has arrived; never blocks. Not stated: what other threads sent.
#[verifier::external_body]
pub(crate) fn channel_try_recv<T>(rx: &Receiver<T>) -> (r: Option<T>) {
    rx.try_recv().ok()
}

/// Cheap-clone sender wrapper handed through the plugin plumbing.
#[derive(Clone)]
pub struct LuaSender {
    inner: Sender<AppEvent>,
}

impl LuaSender {
    /// The sending end of the channel this sender emits into.
    pub closed spec fn channel(&self) -> Sender<AppEvent> {
        self.inner
    }

    /// Construct from the application event channel.
    pub fn new(inner: Sender<AppEvent>) -> (r: Self)
        ensures
            r.channel() == inner,
    {
        Self { inner }
    }

    /// Send a host intent, wrapped as [`AppEvent::Intent`]. A closed
    /// channel (application teardown) is silently ignored — the host
    /// is going away.
    pub fn emit(&self, intent: UserIntent) {
        let _ = channel_send(&self.inner, AppEvent::Intent(intent));
    }
}

} // verus!
