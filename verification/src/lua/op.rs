//! Lua → frontend operation vocabulary.
//!
//! [`Op`] is the typed output of a Lua callback: each variant is one
//! "do this on the App" request that the Lua bridge enqueues into an
//! [`OpsBuffer`] and that the frontend drains once per iteration.
use vstd::prelude::*;
use crate::lua::bridge::card_component::LuaCardComponent;
use crate::lua::bridge::card_handle::CardHandle;
use crate::lua::bridge::palette_handle::PaletteHandle;
use crate::lua::bridge::palette_provider::LuaPaletteProvider;
use crate::lua::bridge::window_handle::CloseFlag;
use crate::lua::value::LuaTable;

verus! {

/// Identity of one component pushed onto the compositor stack.
#[derive(Debug, Clone, Copy, PartialEq, Eq, Hash, Structural)]
pub struct CardId(pub u64);

/// Hands out fresh, never-repeating component ids.
#[derive(Debug, Clone, Copy, PartialEq, Eq)]
pub struct CardIdAllocator {
    pub next: u64,
}

impl CardIdAllocator {
    /// An allocator whose first id is 0.
    pub fn new() -> (r: CardIdAllocator)
        ensures
            r.next == 0,
    {
        CardIdAllocator { next: 0 }
    }

    /// Reserve the next id. Ids are handed out in increasing order, so
    /// no two reservations share one.
    pub fn next(&mut self) -> (r: CardId)
        requires
            old(self).next < u64::MAX,
        ensures
            r.0 == old(self).next,
            final(self).next == old(self).next + 1,
    {
        let id = CardId(self.next);
        self.next = self.next + 1;
        id
    }
}

/// A component a plugin asked to push.
pub enum Pushed {
    /// A sidebar card (`ttymap.api.card.open`).
    Card(LuaCardComponent),
    /// A palette provider (`ttymap.api.palette.open`).
    Palette(LuaPaletteProvider),
}

/// A request from the Lua subsystem to the App.
pub enum Op {
    /// Push `component` onto the compositor stack under `id`.
    Push { id: CardId, component: Pushed },
    /// Pop the component matching the id off the compositor stack.
    /// A no-op when that id is not on the stack (a handle closed
    /// twice, or a component that already closed itself).
    Close(CardId),
}

/// Buffer that accumulates [`Op`]s from Lua callbacks, drained by the
/// frontend once per iteration.
pub struct OpsBuffer {
    pub ops: Vec<Op>,
}

impl OpsBuffer {
    /// Append one op.
    pub fn push(&mut self, op: Op)
        ensures
            final(self).ops@ == old(self).ops@.push(op),
    {
        self.ops.push(op);
    }

    /// Take every queued op, oldest first, leaving the buffer empty.
    pub fn drain(&mut self) -> (r: Vec<Op>)
        ensures
            r@ == old(self).ops@,
            final(self).ops@ == Seq::<Op>::empty(),
    {
        let mut taken: Vec<Op> = Vec::new();
        std::mem::swap(&mut taken, &mut self.ops);
        taken
    }
}

/// `ttymap.api.card.open(spec)`: reserve the next id, build the card
/// from `spec` (labelled by its `name`, else `tag`), enqueue pushing it
/// under that id, and return the handle that can close it.
pub fn open_card(spec: LuaTable, tag: &str, ops: &mut OpsBuffer, ids: &mut CardIdAllocator) -> (r: CardHandle)
    requires
        old(ids).next < u64::MAX,
    ensures
        r.id == CardId(old(ids).next),
        final(ids).next == old(ids).next + 1,
        final(ops).ops@.len() == old(ops).ops@.len() + 1,
        final(ops).ops@.drop_last() == old(ops).ops@,
        final(ops).ops@.last() matches Op::Push { id, component: Pushed::Card(c) }
            && id == r.id && c.handle.log_tag@ == tag@ && c.handle.module == spec,
{
    let id = ids.next();
    let component = LuaCardComponent::from_spec(spec, tag, CloseFlag::new());
    ops.push(Op::Push { id, component: Pushed::Card(component) });
    assert(ops.ops@.drop_last() =~= old(ops).ops@);
    CardHandle::new(id)
}

/// `ttymap.api.palette.open(spec)`: reserve the next id, build the
/// palette provider from `spec`, enqueue pushing it under that id, and
/// return the handle that can close it.
pub fn open_palette(spec: LuaTable, tag: &str, ops: &mut OpsBuffer, ids: &mut CardIdAllocator) -> (r: PaletteHandle)
    requires
        old(ids).next < u64::MAX,
    ensures
        r.id == CardId(old(ids).next),
        final(ids).next == old(ids).next + 1,
        final(ops).ops@.len() == old(ops).ops@.len() + 1,
        final(ops).ops@.drop_last() == old(ops).ops@,
        final(ops).ops@.last() matches Op::Push { id, component: Pushed::Palette(p) }
            && id == r.id && p.handle.log_tag@ == tag@ && p.handle.module == spec,
{
    let id = ids.next();
    let provider = LuaPaletteProvider::from_spec(spec, tag);
    ops.push(Op::Push { id, component: Pushed::Palette(provider) });
    assert(ops.ops@.drop_last() =~= old(ops).ops@);
    PaletteHandle::new(id)
}

/// Construct an empty [`OpsBuffer`].
pub fn new_ops_buffer() -> (r: OpsBuffer)
    ensures
        r.ops@ == Seq::<Op>::empty(),
{
    OpsBuffer { ops: Vec::new() }
}

} // verus!
