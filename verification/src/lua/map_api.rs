//! Keyword vocabulary of the per-frame `map` table plugins draw with
//! (`map:text_anchored(...)`, `map:point(...)`, `map:polyline(...)`):
//! screen-corner anchors and theme-aware colour keywords.
use vstd::prelude::*;
use crate::text::str_is;

verus! {

/// The screen corner anchored text is placed in.
#[derive(Debug, Clone, Copy, PartialEq, Eq, Structural)]
pub enum Anchor {
    TopLeft,
    TopRight,
    BottomLeft,
    BottomRight,
}

/// The corner an anchor keyword names (hyphenated or not, as in
/// `layout.anchor`); unknown keywords are top-left, so a typo paints
/// somewhere visible.
pub open spec fn spec_anchor_from_str(s: Seq<char>) -> Anchor {
    if s == "top-right"@ || s == "topright"@ {
        Anchor::TopRight
    } else if s == "bottom-left"@ || s == "bottomleft"@ {
        Anchor::BottomLeft
    } else if s == "bottom-right"@ || s == "bottomright"@ {
        Anchor::BottomRight
    } else {
        Anchor::TopLeft
    }
}

/// Parse a Lua-side anchor keyword.
pub fn anchor_from_str(s: &str) -> (r: Anchor)
    ensures
        r == spec_anchor_from_str(s@),
{
    if str_is(s, "top-right") || str_is(s, "topright") {
        Anchor::TopRight
    } else if str_is(s, "bottom-left") || str_is(s, "bottomleft") {
        Anchor::BottomLeft
    } else if str_is(s, "bottom-right") || str_is(s, "bottomright") {
        Anchor::BottomRight
    } else {
        Anchor::TopLeft
    }
}

/// The theme colour a drawing primitive is painted in.
#[derive(Debug, Clone, Copy, PartialEq, Eq, Structural)]
pub enum ColorRole {
    /// The primary accent.
    Accent,
    /// The secondary accent.
    AccentAlt,
    /// The muted foreground.
    Muted,
    /// The map's motorway colour, so a line blends with road rendering.
    Road,
}

/// The colour a keyword names for the cell-based primitives: `accent_alt`
/// and `muted`; everything else (including no keyword) is the accent.
pub open spec fn spec_color_role(name: Option<Seq<char>>) -> ColorRole {
    match name {
        Some(s) => if s == "accent_alt"@ {
            ColorRole::AccentAlt
        } else if s == "muted"@ {
            ColorRole::Muted
        } else {
            ColorRole::Accent
        },
        None => ColorRole::Accent,
    }
}

/// Resolve a colour keyword for `map:point` / `map:label`. `None` is a
/// missing or undecodable keyword.
pub fn color_role(name: Option<&str>) -> (r: ColorRole)
    ensures
        r == spec_color_role(match name {
            Some(s) => Some(s@),
            None => None,
        }),
{
    match name {
        Some(s) => if str_is(s, "accent_alt") {
            ColorRole::AccentAlt
        } else if str_is(s, "muted") {
            ColorRole::Muted
        } else {
            ColorRole::Accent
        },
        None => ColorRole::Accent,
    }
}

/// The colour a keyword names for the canvas primitives (`map:polyline`):
/// `road` first, then as [`spec_color_role`].
pub open spec fn spec_color_role_xterm(name: Option<Seq<char>>) -> ColorRole {
    match name {
        Some(s) => if s == "road"@ {
            ColorRole::Road
        } else {
            spec_color_role(name)
        },
        None => spec_color_role(name),
    }
}

/// Resolve a colour keyword for `map:polyline`.
pub fn color_role_xterm(name: Option<&str>) -> (r: ColorRole)
    ensures
        r == spec_color_role_xterm(match name {
            Some(s) => Some(s@),
            None => None,
        }),
{
    match name {
        Some(s) => if str_is(s, "road") {
            ColorRole::Road
        } else {
            color_role(name)
        },
        None => color_role(name),
    }
}

} // verus!
