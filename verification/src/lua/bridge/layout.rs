//! Panel placement a plugin asks for in `spec.layout` (or, for the
//! older module-based components, `module.layout`).
use vstd::prelude::*;
use crate::lua::value::{LuaTable, LuaVal, table_get, table_get_string, table_get_u16};
use crate::text::{ascii_lowercase, chars_are, spec_ascii_lower};

verus! {

/// Where a side panel is anchored inside the map area.
#[derive(Debug, Clone, Copy, PartialEq, Eq, Structural)]
pub enum PanelAnchor {
    Left,
    Right,
    TopLeft,
    TopRight,
    BottomLeft,
    BottomRight,
    Center,
}

/// How the compositor lays a focused component out.
#[derive(Debug, Clone, Copy, PartialEq, Eq, Structural)]
pub enum Placement {
    /// A floating panel over the map.
    Modal,
    /// A vertical section of the left sidebar.
    Sidebar,
}

/// The anchor named by `s`, compared without regard to ASCII case.
pub open spec fn spec_parse_panel_anchor(s: Seq<char>) -> Option<PanelAnchor> {
    let l = spec_ascii_lower(s);
    if l == "left"@ {
        Some(PanelAnchor::Left)
    } else if l == "right"@ {
        Some(PanelAnchor::Right)
    } else if l == "top-left"@ || l == "topleft"@ || l == "tl"@ {
        Some(PanelAnchor::TopLeft)
    } else if l == "top-right"@ || l == "topright"@ || l == "tr"@ {
        Some(PanelAnchor::TopRight)
    } else if l == "bottom-left"@ || l == "bottomleft"@ || l == "bl"@ {
        Some(PanelAnchor::BottomLeft)
    } else if l == "bottom-right"@ || l == "bottomright"@ || l == "br"@ {
        Some(PanelAnchor::BottomRight)
    } else if l == "center"@ || l == "centre"@ {
        Some(PanelAnchor::Center)
    } else {
        None
    }
}

/// Parse a `layout.anchor` string. Unknown strings yield `None` and the
/// caller keeps the layout default.
pub fn parse_panel_anchor(s: &str) -> (r: Option<PanelAnchor>)
    ensures
        r == spec_parse_panel_anchor(s@),
{
    let l = ascii_lowercase(s);
    if chars_are(&l, "left") {
        Some(PanelAnchor::Left)
    } else if chars_are(&l, "right") {
        Some(PanelAnchor::Right)
    } else if chars_are(&l, "top-left") || chars_are(&l, "topleft") || chars_are(&l, "tl") {
        Some(PanelAnchor::TopLeft)
    } else if chars_are(&l, "top-right") || chars_are(&l, "topright") || chars_are(&l, "tr") {
        Some(PanelAnchor::TopRight)
    } else if chars_are(&l, "bottom-left") || chars_are(&l, "bottomleft") || chars_are(&l, "bl") {
        Some(PanelAnchor::BottomLeft)
    } else if chars_are(&l, "bottom-right") || chars_are(&l, "bottomright") || chars_are(&l, "br") {
        Some(PanelAnchor::BottomRight)
    } else if chars_are(&l, "center") || chars_are(&l, "centre") {
        Some(PanelAnchor::Center)
    } else {
        None
    }
}

/// The fields of a `layout` table, as read from the script: each is
/// `None` when absent or of the wrong type.
pub struct LayoutFields {
    pub anchor: Option<String>,
    pub width: Option<u16>,
    pub height: Option<u16>,
    pub kind: Option<String>,
}

/// Per-window layout knobs read from `spec.layout`.
#[derive(Debug, Clone, Copy, PartialEq, Eq, Structural)]
pub struct WindowLayout {
    pub anchor: PanelAnchor,
    pub width: u16,
    /// `None`: use the full available height.
    pub height: Option<u16>,
    pub placement: Placement,
}

/// The default when a plugin omits `layout`: top-left, 32×10, modal.
pub open spec fn spec_window_fallback() -> WindowLayout {
    WindowLayout { anchor: PanelAnchor::TopLeft, width: 32, height: Some(10), placement: Placement::Modal }
}

/// The anchor a `layout.anchor` field selects: the named one, top-left
/// when absent or unknown.
pub open spec fn spec_anchor_of(anchor: Option<String>) -> PanelAnchor {
    match anchor {
        Some(a) => match spec_parse_panel_anchor(a@) {
            Some(x) => x,
            None => PanelAnchor::TopLeft,
        },
        None => PanelAnchor::TopLeft,
    }
}

/// The window layout a `layout` table describes (`None`: no table).
/// Width defaults to 32; an absent height means full height; `kind =
/// "sidebar"` (any ASCII case) selects the sidebar, anything else the
/// modal placement.
pub open spec fn spec_window_layout(fields: Option<LayoutFields>) -> WindowLayout {
    match fields {
        None => spec_window_fallback(),
        Some(f) => WindowLayout {
            anchor: spec_anchor_of(f.anchor),
            width: match f.width {
                Some(w) => w,
                None => 32,
            },
            height: f.height,
            placement: match f.kind {
                Some(k) => if spec_ascii_lower(k@) == "sidebar"@ {
                    Placement::Sidebar
                } else {
                    Placement::Modal
                },
                None => Placement::Modal,
            },
        },
    }
}

fn anchor_of(anchor: &Option<String>) -> (r: PanelAnchor)
    ensures
        r == spec_anchor_of(*anchor),
{
    match anchor {
        Some(a) => match parse_panel_anchor(a.as_str()) {
            Some(x) => x,
            None => PanelAnchor::TopLeft,
        },
        None => PanelAnchor::TopLeft,
    }
}

impl WindowLayout {
    /// Sane default when a plugin omits the `layout` field — top-left,
    /// 32×10, modal placement.
    pub fn fallback() -> (r: Self)
        ensures
            r == spec_window_fallback(),
    {
        WindowLayout { anchor: PanelAnchor::TopLeft, width: 32, height: Some(10), placement: Placement::Modal }
    }

    /// The layout described by the fields of a `layout` table (`None`
    /// when the spec has no such table).
    pub fn from_fields(fields: Option<LayoutFields>) -> (r: Self)
        ensures
            r == spec_window_layout(fields),
    {
        match fields {
            None => Self::fallback(),
            Some(f) => {
                let anchor = anchor_of(&f.anchor);
                let width = match f.width {
                    Some(w) => w,
                    None => 32,
                };
                let placement = match &f.kind {
                    Some(k) => {
                        let l = ascii_lowercase(k.as_str());
                        if chars_are(&l, "sidebar") {
                            Placement::Sidebar
                        } else {
                            Placement::Modal
                        }
                    },
                    None => Placement::Modal,
                };
                WindowLayout { anchor, width, height: f.height, placement }
            },
        }
    }
}

/// The fields a `layout` value gives (`None`: the field could not be
/// read): a table is read for `anchor`, `width`, `height` and `kind`;
/// anything else gives no layout table.
pub fn layout_fields_of(v: Option<LuaVal>) -> (r: Option<LayoutFields>)
    ensures
        (r is Some) <==> (v matches Some(LuaVal::Table(_))),
{
    match v {
        Some(LuaVal::Table(t)) => Some(LayoutFields {
            anchor: table_get_string(&t, "anchor").0.ok(),
            width: table_get_u16(&t, "width").ok(),
            height: table_get_u16(&t, "height").ok(),
            kind: table_get_string(&t, "kind").0.ok(),
        }),
        _ => None,
    }
}

/// Read the fields of `spec.layout` (see [`layout_fields_of`]).
pub fn read_layout_fields(spec: &LuaTable) -> (r: Option<LayoutFields>) {
    let v = match table_get(spec, "layout").0 {
        Ok(v) => Some(v),
        Err(_) => None,
    };
    layout_fields_of(v)
}

/// Read `spec.layout = { anchor, width, height, kind }` with graceful
/// recovery: missing fields fall back to [`WindowLayout::fallback`]'s,
/// an unknown anchor falls back too rather than erroring.
pub fn parse_layout(spec: &LuaTable) -> (r: WindowLayout)
    ensures
        exists|f: Option<LayoutFields>| r == spec_window_layout(f),
{
    let fields = read_layout_fields(spec);
    let ghost g = fields;
    let r = WindowLayout::from_fields(fields);
    assert(r == spec_window_layout(g));
    r
}

/// Layout of the module-based components: `module.layout = { anchor,
/// width, height }`.
#[derive(Debug, Clone, Copy, PartialEq, Eq, Structural)]
pub struct LuaLayout {
    pub anchor: PanelAnchor,
    pub width: u16,
    pub height: Option<u16>,
}

/// The module layout a `layout` table describes (`None`: no table).
/// Every missing field takes the fallback's value: top-left, width 32,
/// height 10.
pub open spec fn spec_lua_layout(fields: Option<LayoutFields>) -> LuaLayout {
    match fields {
        None => LuaLayout { anchor: PanelAnchor::TopLeft, width: 32, height: Some(10) },
        Some(f) => LuaLayout {
            anchor: spec_anchor_of(f.anchor),
            width: match f.width {
                Some(w) => w,
                None => 32,
            },
            height: match f.height {
                Some(h) => Some(h),
                None => Some(10),
            },
        },
    }
}

impl LuaLayout {
    /// Sane default when a plugin omits the `layout` field — top-left,
    /// 32×10.
    pub fn fallback() -> (r: Self)
        ensures
            r == (LuaLayout { anchor: PanelAnchor::TopLeft, width: 32, height: Some(10) }),
    {
        LuaLayout { anchor: PanelAnchor::TopLeft, width: 32, height: Some(10) }
    }

    /// The layout described by the fields of a `layout` table.
    pub fn from_fields(fields: Option<LayoutFields>) -> (r: Self)
        ensures
            r == spec_lua_layout(fields),
    {
        match fields {
            None => Self::fallback(),
            Some(f) => {
                let anchor = anchor_of(&f.anchor);
                let width = match f.width {
                    Some(w) => w,
                    None => 32,
                };
                let height = match f.height {
                    Some(h) => Some(h),
                    None => Some(10),
                };
                LuaLayout { anchor, width, height }
            },
        }
    }

    /// Read `module.layout`: anything missing falls back to the
    /// corresponding [`Self::fallback`] field.
    pub fn from_module(module: &LuaTable) -> (r: Self)
        ensures
            exists|f: Option<LayoutFields>| r == spec_lua_layout(f),
    {
        let fields = read_layout_fields(module);
        let ghost g = fields;
        let r = Self::from_fields(fields);
        assert(r == spec_lua_layout(g));
        r
    }
}

} // verus!
