//! Mouse adapter — translates raw mouse events into a sequence of
//! `UserIntent`s for the main loop to dispatch: every event reports the
//! cursor position; a left-button drag pans by whole cells; the wheel
//! zooms around the pointer.
//!
//! Owns the cross-event drag state (`drag_from`): turning a drag into
//! a cell delta needs the previous pointer position.
use vstd::prelude::*;
use crate::frontend::UserIntent;
use crate::map::Action;

verus! {

/// A mouse button.
#[derive(Debug, Clone, Copy, PartialEq, Eq, Structural)]
pub enum MouseButton {
    Left,
    Right,
    Middle,
}

/// What happened to the mouse.
#[derive(Debug, Clone, Copy, PartialEq, Eq, Structural)]
pub enum MouseEventKind {
    Down(MouseButton),
    Up(MouseButton),
    Drag(MouseButton),
    Moved,
    ScrollDown,
    ScrollUp,
    ScrollLeft,
    ScrollRight,
}

/// One mouse event at a terminal cell.
#[derive(Debug, Clone, Copy, PartialEq, Eq, Structural)]
pub struct MouseEvent {
    pub kind: MouseEventKind,
    pub column: u16,
    pub row: u16,
}

/// Mouse → command adapter.
#[derive(Debug, Clone, Copy, PartialEq, Eq)]
pub struct MouseAdapter {
    /// Pointer cell of the last left-button press or drag, while the
    /// button is held.
    pub drag_from: Option<(u16, u16)>,
}

/// The signed cell delta `to - from` of a coordinate pair, each read
/// as a signed 16-bit cell index.
pub open spec fn cell_delta(to: u16, from: u16) -> int {
    (to as i16) - (from as i16)
}

/// A drag from `from` to `to` has a delta that fits a signed 16-bit
/// cell count on both axes.
pub open spec fn drag_fits(from: (u16, u16), to_col: u16, to_row: u16) -> bool {
    i16::MIN <= cell_delta(to_col, from.0) <= i16::MAX
        && i16::MIN <= cell_delta(to_row, from.1) <= i16::MAX
}

/// The zoom command for a wheel step at `(column, row)` on a
/// `cols × rows` screen: the anchor is the pointer's offset from the
/// screen centre, doubled.
pub open spec fn spec_zoom_at(column: u16, row: u16, cols: u16, rows: u16, zoom_in: bool) -> UserIntent {
    UserIntent::MapAction(Action::ZoomAt {
        anchor_dx2: (2 * column - cols) as i32,
        anchor_dy2: (2 * row - rows) as i32,
        zoom_in,
    })
}

impl MouseAdapter {
    /// An adapter with no drag in progress.
    pub fn new() -> (r: MouseAdapter)
        ensures
            r.drag_from is None,
    {
        MouseAdapter { drag_from: None }
    }

    /// The command an event adds after the cursor report, and the drag
    /// state that follows it.
    pub open spec fn spec_resolve(self, event: MouseEvent, cols: u16, rows: u16) -> (Option<UserIntent>, Option<(u16, u16)>) {
        match event.kind {
            MouseEventKind::Down(MouseButton::Left) => (None, Some((event.column, event.row))),
            MouseEventKind::Drag(MouseButton::Left) => match self.drag_from {
                Some(from) => {
                    let dx = cell_delta(event.column, from.0);
                    let dy = cell_delta(event.row, from.1);
                    (
                        if dx != 0 || dy != 0 {
                            Some(UserIntent::MapAction(Action::PanCells(dx as i16, dy as i16)))
                        } else {
                            None
                        },
                        Some((event.column, event.row)),
                    )
                },
                None => (None, None),
            },
            MouseEventKind::Up(MouseButton::Left) => (None, None),
            MouseEventKind::ScrollUp => (Some(spec_zoom_at(event.column, event.row, cols, rows, true)), self.drag_from),
            MouseEventKind::ScrollDown => (Some(spec_zoom_at(event.column, event.row, cols, rows, false)), self.drag_from),
            _ => (None, self.drag_from),
        }
    }

    /// The event can be translated without its drag delta overflowing.
    pub open spec fn accepts(self, event: MouseEvent) -> bool {
        match (event.kind, self.drag_from) {
            (MouseEventKind::Drag(MouseButton::Left), Some(from)) => drag_fits(from, event.column, event.row),
            _ => true,
        }
    }

    /// Whether the event can be translated (see [`Self::accepts`]): a
    /// left drag is accepted only when its delta from the press fits a
    /// signed 16-bit cell count on both axes.
    pub fn accepts_event(&self, event: MouseEvent) -> (r: bool)
        ensures
            r == self.accepts(event),
    {
        match (event.kind, self.drag_from) {
            (MouseEventKind::Drag(MouseButton::Left), Some(from)) => {
                let dx: i32 = (event.column as i16) as i32 - (from.0 as i16) as i32;
                let dy: i32 = (event.row as i16) as i32 - (from.1 as i16) as i32;
                -32768 <= dx && dx <= 32767 && -32768 <= dy && dy <= 32767
            },
            _ => true,
        }
    }

    /// Translate a raw mouse event into zero or more commands. Every
    /// event emits a leading `CursorMoved` for the overlay readout;
    /// a drag or a wheel step appends one more command. `cols` and
    /// `rows` are the terminal size the zoom anchor is measured in.
    pub fn translate(&mut self, event: MouseEvent, cols: u16, rows: u16) -> (r: Vec<UserIntent>)
        requires
            old(self).accepts(event),
        ensures
            r@.len() >= 1,
            r@[0] == UserIntent::CursorMoved(event.column, event.row),
            r@.drop_first() == (match old(self).spec_resolve(event, cols, rows).0 {
                Some(m) => seq![m],
                None => Seq::<UserIntent>::empty(),
            }),
            final(self).drag_from == old(self).spec_resolve(event, cols, rows).1,
    {
        let mut msgs: Vec<UserIntent> = Vec::new();
        msgs.push(UserIntent::CursorMoved(event.column, event.row));
        let next = self.resolve(event, cols, rows);
        match next {
            Some(msg) => {
                msgs.push(msg);
                assert(msgs@.drop_first() =~= seq![msg]);
            },
            None => {
                assert(msgs@.drop_first() =~= Seq::<UserIntent>::empty());
            },
        }
        msgs
    }

    /// The command an event adds after the cursor report, if any, and
    /// the drag-state update.
    pub fn resolve(&mut self, event: MouseEvent, cols: u16, rows: u16) -> (r: Option<UserIntent>)
        requires
            old(self).accepts(event),
        ensures
            r == old(self).spec_resolve(event, cols, rows).0,
            final(self).drag_from == old(self).spec_resolve(event, cols, rows).1,
    {
        let anchor_dx2: i32 = 2 * (event.column as i32) - (cols as i32);
        let anchor_dy2: i32 = 2 * (event.row as i32) - (rows as i32);
        match event.kind {
            MouseEventKind::Moved => None,
            MouseEventKind::Down(MouseButton::Left) => {
                self.drag_from = Some((event.column, event.row));
                None
            },
            MouseEventKind::Drag(MouseButton::Left) => {
                match self.drag_from {
                    Some((prev_x, prev_y)) => {
                        let dx: i16 = (event.column as i16) - (prev_x as i16);
                        let dy: i16 = (event.row as i16) - (prev_y as i16);
                        self.drag_from = Some((event.column, event.row));
                        if dx != 0 || dy != 0 {
                            return Some(UserIntent::MapAction(Action::PanCells(dx, dy)));
                        }
                        None
                    },
                    None => None,
                }
            },
            MouseEventKind::Up(MouseButton::Left) => {
                self.drag_from = None;
                None
            },
            MouseEventKind::ScrollUp => Some(
                UserIntent::MapAction(Action::ZoomAt { anchor_dx2, anchor_dy2, zoom_in: true }),
            ),
            MouseEventKind::ScrollDown => Some(
                UserIntent::MapAction(Action::ZoomAt { anchor_dx2, anchor_dy2, zoom_in: false }),
            ),
            _ => None,
        }
    }
}

/// A left press followed by a left drag pans by exactly the pointer's
/// cell movement, and the drag position becomes the new origin; a
/// release ends the drag, after which drags pan nothing.
pub proof fn law_press_drag_release(a: MouseAdapter, x0: u16, y0: u16, x1: u16, y1: u16, cols: u16, rows: u16)
    requires
        drag_fits((x0, y0), x1, y1),
        (x0 != x1 || y0 != y1),
        x0 <= 0x7fff && x1 <= 0x7fff && y0 <= 0x7fff && y1 <= 0x7fff,
    ensures
        ({
            let press = MouseEvent { kind: MouseEventKind::Down(MouseButton::Left), column: x0, row: y0 };
            let drag = MouseEvent { kind: MouseEventKind::Drag(MouseButton::Left), column: x1, row: y1 };
            let up = MouseEvent { kind: MouseEventKind::Up(MouseButton::Left), column: x1, row: y1 };
            let a1 = MouseAdapter { drag_from: a.spec_resolve(press, cols, rows).1 };
            let a2 = MouseAdapter { drag_from: a1.spec_resolve(drag, cols, rows).1 };
            let a3 = MouseAdapter { drag_from: a2.spec_resolve(up, cols, rows).1 };
            &&& a.spec_resolve(press, cols, rows).0 is None
            &&& a1.spec_resolve(drag, cols, rows).0 == Some(
                UserIntent::MapAction(Action::PanCells((x1 - x0) as i16, (y1 - y0) as i16)),
            )
            &&& a2.drag_from == Some((x1, y1))
            &&& a3.drag_from is None
            &&& a3.spec_resolve(drag, cols, rows).0 is None
        }),
{
    assert((x0 as i16) as int == x0 as int) by (bit_vector)
        requires x0 <= 0x7fff;
    assert((x1 as i16) as int == x1 as int) by (bit_vector)
        requires x1 <= 0x7fff;
    assert((y0 as i16) as int == y0 as int) by (bit_vector)
        requires y0 <= 0x7fff;
    assert((y1 as i16) as int == y1 as int) by (bit_vector)
        requires y1 <= 0x7fff;
}

/// The wheel zooms about the pointer: a step up at a cell zooms in and a
/// step down at the same cell zooms out, both anchored at the pointer's
/// offset from the screen centre (doubled, so odd sizes stay exact),
/// and neither touches a drag in progress.
pub proof fn law_wheel_zooms_about_the_pointer(a: MouseAdapter, column: u16, row: u16, cols: u16, rows: u16)
    ensures
        ({
            let up = a.spec_resolve(MouseEvent { kind: MouseEventKind::ScrollUp, column, row }, cols, rows);
            let down = a.spec_resolve(MouseEvent { kind: MouseEventKind::ScrollDown, column, row }, cols, rows);
            &&& up.0 matches Some(UserIntent::MapAction(Action::ZoomAt { anchor_dx2, anchor_dy2, zoom_in }))
                && zoom_in
                && anchor_dx2 as int == 2 * column - cols
                && anchor_dy2 as int == 2 * row - rows
            &&& down.0 matches Some(UserIntent::MapAction(Action::ZoomAt { anchor_dx2, anchor_dy2, zoom_in }))
                && !zoom_in
                && anchor_dx2 as int == 2 * column - cols
                && anchor_dy2 as int == 2 * row - rows
            &&& up.1 == a.drag_from
            &&& down.1 == a.drag_from
        }),
{
}

} // verus!
