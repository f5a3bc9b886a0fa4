//! The command vocabulary every input source speaks, and the event
//! envelope that carries it onto the application queue.
use vstd::prelude::*;
use crate::map::Action;

verus! {

/// One user-level command.
#[derive(Debug, Clone, Copy, PartialEq, Eq, Hash, Structural)]
pub enum UserIntent {
    /// A map-level mutation.
    MapAction(Action),
    /// The mouse pointer moved to `(column, row)`.
    CursorMoved(u16, u16),
    /// Snapshot the current frame to disk.
    ExportFrame,
}

/// An event on the application queue.
#[derive(Debug, Clone, Copy, PartialEq, Eq, Structural)]
pub enum AppEvent {
    /// A command raised by a plugin or an input adapter.
    Intent(UserIntent),
}

} // verus!
