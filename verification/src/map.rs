//! Map-level actions: the viewport mutations a key binding, the mouse
//! or a plugin can ask for.
use vstd::prelude::*;
use crate::text::str_is;

verus! {

/// One map-level mutation. Zoom anchors are kept doubled
/// (`2 * offset`) so a half-cell offset from the screen centre stays
/// an exact integer.
#[derive(Debug, Clone, Copy, PartialEq, Eq, Hash, Structural)]
pub enum Action {
    PanLeft,
    PanRight,
    PanUp,
    PanDown,
    PanLeftFast,
    PanRightFast,
    PanUpHalf,
    PanDownHalf,
    ZoomIn,
    ZoomOut,
    ZoomToWorld,
    ResetPosition,
    Quit,
    /// Pan by whole terminal cells (mouse drag).
    PanCells(i16, i16),
    /// Zoom one step around a screen point given as doubled offsets
    /// from the screen centre.
    ZoomAt { anchor_dx2: i32, anchor_dy2: i32, zoom_in: bool },
}

/// The configuration name of each bindable action (`"pan_left"`, …).
pub open spec fn spec_from_config_name(name: Seq<char>) -> Option<Action> {
    if name == "pan_left"@ {
        Some(Action::PanLeft)
    } else if name == "pan_right"@ {
        Some(Action::PanRight)
    } else if name == "pan_up"@ {
        Some(Action::PanUp)
    } else if name == "pan_down"@ {
        Some(Action::PanDown)
    } else if name == "pan_left_fast"@ {
        Some(Action::PanLeftFast)
    } else if name == "pan_right_fast"@ {
        Some(Action::PanRightFast)
    } else if name == "pan_up_half"@ {
        Some(Action::PanUpHalf)
    } else if name == "pan_down_half"@ {
        Some(Action::PanDownHalf)
    } else if name == "zoom_in"@ {
        Some(Action::ZoomIn)
    } else if name == "zoom_out"@ {
        Some(Action::ZoomOut)
    } else if name == "zoom_to_world"@ {
        Some(Action::ZoomToWorld)
    } else if name == "reset_position"@ {
        Some(Action::ResetPosition)
    } else if name == "quit"@ {
        Some(Action::Quit)
    } else {
        None
    }
}

impl Action {
    /// Look up a bindable action by its configuration name. Names that
    /// do not belong to a bindable action give `None`.
    pub fn from_config_name(name: &str) -> (r: Option<Action>)
        ensures
            r == spec_from_config_name(name@),
    {
        if str_is(name, "pan_left") {
            Some(Action::PanLeft)
        } else if str_is(name, "pan_right") {
            Some(Action::PanRight)
        } else if str_is(name, "pan_up") {
            Some(Action::PanUp)
        } else if str_is(name, "pan_down") {
            Some(Action::PanDown)
        } else if str_is(name, "pan_left_fast") {
            Some(Action::PanLeftFast)
        } else if str_is(name, "pan_right_fast") {
            Some(Action::PanRightFast)
        } else if str_is(name, "pan_up_half") {
            Some(Action::PanUpHalf)
        } else if str_is(name, "pan_down_half") {
            Some(Action::PanDownHalf)
        } else if str_is(name, "zoom_in") {
            Some(Action::ZoomIn)
        } else if str_is(name, "zoom_out") {
            Some(Action::ZoomOut)
        } else if str_is(name, "zoom_to_world") {
            Some(Action::ZoomToWorld)
        } else if str_is(name, "reset_position") {
            Some(Action::ResetPosition)
        } else if str_is(name, "quit") {
            Some(Action::Quit)
        } else {
            None
        }
    }
}

} // verus!
