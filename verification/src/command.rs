//! Command vocabulary of the single-keymap input path: map actions
//! plus the reserved mode-transition keys and the "nothing to do"
//! answer.
use vstd::prelude::*;

verus! {

/// One action a key can resolve to.
#[derive(Debug, Clone, Copy, PartialEq, Eq, Hash, Structural)]
pub enum Action {
    PanLeft,
    PanRight,
    PanUp,
    PanDown,
    PanLeftFast,
    PanRightFast,
    PanUpHalf,
    PanDownHalf,
    ZoomIn,
    ZoomOut,
    ZoomToWorld,
    ResetPosition,
    Quit,
    /// No action: mid-sequence, or an unbound key.
    Nothing,
    /// Open the search palette (`/`).
    SearchOpen,
    /// Toggle the help overlay (`?`).
    HelpToggle,
    /// Toggle the wiki panel (`i`).
    WikiToggle,
}

} // verus!
