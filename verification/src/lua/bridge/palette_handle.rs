//! `ttymap.api.palette.open(spec) -> PaletteHandle`: the Lua-facing handle
//! of a pushed palette, whose only method is `close()`.
//!
//! The handle holds the palette's reserved [`CardId`]; `close()` enqueues
//! an [`Op::Close`] keyed by it into the Lua subsystem's op buffer, and
//! the App pops the matching component when it drains the buffer.
//! Closing twice enqueues two ops; the second is a no-op at the App.
use vstd::prelude::*;
use crate::lua::op::{CardId, Op, OpsBuffer};

verus! {

/// Lua-facing handle returned by `ttymap.api.palette.open(...)`.
#[derive(Debug, Clone, Copy, PartialEq, Eq, Structural)]
pub struct PaletteHandle {
    pub id: CardId,
}

impl PaletteHandle {
    /// A handle that requests close of the card `id`.
    pub fn new(id: CardId) -> (r: Self)
        ensures
            r.id == id,
    {
        PaletteHandle { id }
    }

    /// `handle:close()`: enqueue `Op::Close(id)`.
    pub fn close(&self, ops: &mut OpsBuffer)
        ensures
            final(ops).ops@ == old(ops).ops@.push(Op::Close(self.id)),
    {
        ops.push(Op::Close(self.id));
    }
}

} // verus!
