//! Parsers that turn what a plugin script hands back into host values:
//! styled text lines and list items, footer hints, and the action a
//! key handler asked for.
//!
//! Each parser comes in two halves. A reader walks the Lua tables and
//! collects the fields the protocol looks at into plain values; a
//! verified builder turns those fields into the host value, and its
//! contract says exactly what comes out for every input.
use vstd::prelude::*;
use crate::keys::{KeyCode, KeyModifiers};
use crate::input::keymap::spec_parse_key_code;
use crate::lua::bridge::handle::CallOutcome;
use crate::lua::value::{
    CallArg, LuaTable, LuaVal, table_get, table_get_string, table_get_string_at, table_len,
    table_sequence, truthy,
};
use crate::text::{pair_views, str_is};

verus! {

// ── Styles ─────────────────────────────────────────────────────────

/// The theme role a span of plugin text is painted in.
#[derive(Debug, Clone, Copy, PartialEq, Eq, Structural)]
pub enum StyleKind {
    Body,
    Muted,
    Accent,
    Highlight,
    Selected,
    MutedFg,
    Link,
}

/// The style a keyword names; unknown or absent keywords are `Body`.
pub open spec fn spec_style_from_str(name: Option<Seq<char>>) -> StyleKind {
    match name {
        Some(s) => if s == "muted"@ {
            StyleKind::Muted
        } else if s == "accent"@ {
            StyleKind::Accent
        } else if s == "highlight"@ {
            StyleKind::Highlight
        } else if s == "selected"@ {
            StyleKind::Selected
        } else if s == "muted_fg"@ {
            StyleKind::MutedFg
        } else if s == "link"@ {
            StyleKind::Link
        } else {
            StyleKind::Body
        },
        None => StyleKind::Body,
    }
}

/// Map a Lua-side style keyword to a [`StyleKind`]. Unknown values fall
/// back to `Body` so a typo paints in the default colour rather than
/// breaking the plugin.
pub fn style_from_str(name: Option<&str>) -> (r: StyleKind)
    ensures
        r == spec_style_from_str(match name {
            Some(s) => Some(s@),
            None => None,
        }),
{
    match name {
        Some(s) => if str_is(s, "muted") {
            StyleKind::Muted
        } else if str_is(s, "accent") {
            StyleKind::Accent
        } else if str_is(s, "highlight") {
            StyleKind::Highlight
        } else if str_is(s, "selected") {
            StyleKind::Selected
        } else if str_is(s, "muted_fg") {
            StyleKind::MutedFg
        } else if str_is(s, "link") {
            StyleKind::Link
        } else {
            StyleKind::Body
        },
        None => StyleKind::Body,
    }
}

fn style_of(name: &Option<String>) -> (r: StyleKind)
    ensures
        r == spec_style_from_str(match name {
            Some(s) => Some(s@),
            None => None,
        }),
{
    match name {
        Some(s) => style_from_str(Some(s.as_str())),
        None => style_from_str(None),
    }
}

// ── Footer hints ───────────────────────────────────────────────────

/// One `footer_hints` entry as read from the script: the named field,
/// and the positional one (read only when the named one is missing).
pub struct HintFields {
    pub named_key: Option<String>,
    pub positional_key: Option<String>,
    pub named_label: Option<String>,
    pub positional_label: Option<String>,
}

/// A field given either by name or by position; empty when neither.
pub open spec fn spec_either(named: Option<String>, positional: Option<String>) -> Seq<char> {
    match named {
        Some(k) => k@,
        None => match positional {
            Some(p) => p@,
            None => Seq::empty(),
        },
    }
}

/// The `(key, label)` hints an entry list describes: each entry gives
/// its key (`key` or `[1]`) and label (`label` or `[2]`); entries with
/// both empty are dropped. Order is kept.
pub open spec fn spec_footer_hints(fs: Seq<HintFields>) -> Seq<(Seq<char>, Seq<char>)>
    decreases fs.len(),
{
    if fs.len() == 0 {
        Seq::empty()
    } else {
        let rest = spec_footer_hints(fs.drop_last());
        let f = fs.last();
        let k = spec_either(f.named_key, f.positional_key);
        let l = spec_either(f.named_label, f.positional_label);
        if k.len() == 0 && l.len() == 0 {
            rest
        } else {
            rest.push((k, l))
        }
    }
}

fn either(named: &Option<String>, positional: &Option<String>) -> (r: String)
    ensures
        r@ == spec_either(*named, *positional),
{
    match named {
        Some(k) => k.clone(),
        None => match positional {
            Some(p) => p.clone(),
            None => String::new(),
        },
    }
}

/// Build the footer hints from the entries read out of
/// `spec.footer_hints`.
pub fn footer_hints_from(fields: &Vec<HintFields>) -> (r: Vec<(String, String)>)
    ensures
        pair_views(r@) == spec_footer_hints(fields@),
{
    let mut out: Vec<(String, String)> = Vec::new();
    let mut i: usize = 0;
    while i < fields.len()
        invariant
            i <= fields@.len(),
            pair_views(out@) == spec_footer_hints(fields@.take(i as int)),
        decreases fields@.len() - i,
    {
        assert(fields@.take(i + 1).drop_last() =~= fields@.take(i as int));
        let f = &fields[i];
        let k = either(&f.named_key, &f.positional_key);
        let l = either(&f.named_label, &f.positional_label);
        if k.unicode_len() == 0 && l.unicode_len() == 0 {
        } else {
            let ghost before = out@;
            out.push((k, l));
            assert(pair_views(out@) =~= pair_views(before).push((k@, l@)));
        }
        i = i + 1;
    }
    assert(fields@.take(fields@.len() as int) =~= fields@);
    out
}

/// Whether an entry was read named-first: a positional field is only
/// read, and so only present, when its named field is missing.
pub open spec fn spec_named_first(h: HintFields) -> bool {
    &&& (h.named_key is Some ==> h.positional_key is None)
    &&& (h.named_label is Some ==> h.positional_label is None)
}

/// Read one hint entry: the named field first, the positional one only
/// when the named one is missing.
fn read_hint(pair: &LuaTable) -> (r: HintFields)
    ensures
        spec_named_first(r),
{
    let named_key = table_get_string(pair, "key").0.ok();
    let positional_key = match named_key {
        Some(_) => None,
        None => table_get_string_at(pair, 1).ok(),
    };
    let named_label = table_get_string(pair, "label").0.ok();
    let positional_label = match named_label {
        Some(_) => None,
        None => table_get_string_at(pair, 2).ok(),
    };
    HintFields { named_key, positional_key, named_label, positional_label }
}

/// Read the entries of `spec.footer_hints`: every table in its
/// sequence part; nothing when the field is not a table.
pub fn read_footer_hint_fields(spec: &LuaTable) -> (r: Vec<HintFields>)
    ensures
        forall|i: int| 0 <= i < r@.len() ==> spec_named_first(#[trigger] r@[i]),
{
    let v = match table_get(spec, "footer_hints").0 {
        Ok(v) => Some(v),
        Err(_) => None,
    };
    hint_fields_of(v)
}

/// The entries a `footer_hints` value gives (`None`: the field could
/// not be read): for a table, each table in its sequence part, read
/// named-first; nothing for any other value.
pub fn hint_fields_of(v: Option<LuaVal>) -> (r: Vec<HintFields>)
    ensures
        !(v matches Some(LuaVal::Table(_))) ==> r@.len() == 0,
        forall|i: int| 0 <= i < r@.len() ==> spec_named_first(#[trigger] r@[i]),
{
    let mut out: Vec<HintFields> = Vec::new();
    let list = match v {
        Some(LuaVal::Table(t)) => t,
        _ => return out,
    };
    let mut entries = table_sequence(&list);
    while entries.len() > 0
        invariant
            forall|i: int| 0 <= i < out@.len() ==> spec_named_first(#[trigger] out@[i]),
        decreases entries@.len(),
    {
        let e = entries.remove(0);
        match e {
            LuaVal::Table(pair) => out.push(read_hint(&pair)),
            _ => {},
        }
    }
    out
}

/// Read `spec.footer_hints` as `(key, label)` pairs. Two accepted shapes
/// per pair: `{ "Enter", "open" }` (positional) and `{ key = "Enter",
/// label = "open" }` (named).
pub fn parse_footer_hints(spec: &LuaTable) -> (r: Vec<(String, String)>)
    ensures
        exists|fs: Seq<HintFields>| pair_views(r@) == spec_footer_hints(fs),
{
    let fields = read_footer_hint_fields(spec);
    footer_hints_from(&fields)
}

// ── Styled lines ───────────────────────────────────────────────────

/// One entry of a span array, as read from the script.
pub enum SpanFields {
    /// A `{ text, style }` record.
    Record { text: Option<String>, style: Option<String> },
    /// A bare string (`None`: not valid UTF-8).
    Text(Option<String>),
    /// Anything else; skipped.
    Skip,
}

/// A line value, as read from the script.
pub enum LineFields {
    /// A bare string (`None`: not valid UTF-8).
    Text(Option<String>),
    /// A table: its span entries.
    Spans(Vec<SpanFields>),
    /// Anything else, by its debug rendering.
    Debug(String),
}

/// The text of a possibly-undecodable string: empty when undecodable.
pub open spec fn spec_text(t: Option<String>) -> Seq<char> {
    match t {
        Some(s) => s@,
        None => Seq::empty(),
    }
}

/// The spans an entry list describes: records keep their text (empty
/// when missing) and style; bare strings are `Body`; other entries are
/// skipped.
pub open spec fn spec_spans(ss: Seq<SpanFields>) -> Seq<(Seq<char>, StyleKind)>
    decreases ss.len(),
{
    if ss.len() == 0 {
        Seq::empty()
    } else {
        let rest = spec_spans(ss.drop_last());
        match ss.last() {
            SpanFields::Record { text, style } => rest.push((spec_text(text), spec_style_from_str(match style {
                Some(s) => Some(s@),
                None => None,
            }))),
            SpanFields::Text(t) => rest.push((spec_text(t), StyleKind::Body)),
            SpanFields::Skip => rest,
        }
    }
}

/// The spans of one line: a bare string is one `Body` span; a table
/// gives its spans, or one empty `Body` span when it has none; anything
/// else shows its debug rendering as one `Body` span.
pub open spec fn spec_line(l: LineFields) -> Seq<(Seq<char>, StyleKind)> {
    match l {
        LineFields::Text(t) => seq![(spec_text(t), StyleKind::Body)],
        LineFields::Spans(ss) => {
            let s = spec_spans(ss@);
            if s.len() == 0 {
                seq![(Seq::<char>::empty(), StyleKind::Body)]
            } else {
                s
            }
        },
        LineFields::Debug(d) => seq![(d@, StyleKind::Body)],
    }
}

/// The characters of each span's text.
pub open spec fn span_views(v: Seq<(String, StyleKind)>) -> Seq<(Seq<char>, StyleKind)> {
    v.map_values(|p: (String, StyleKind)| (p.0@, p.1))
}

fn text_of(t: &Option<String>) -> (r: String)
    ensures
        r@ == spec_text(*t),
{
    match t {
        Some(s) => s.clone(),
        None => String::new(),
    }
}

/// Build a line's spans from the fields read out of its value.
pub fn line_from_fields(l: &LineFields) -> (r: Vec<(String, StyleKind)>)
    ensures
        span_views(r@) == spec_line(*l),
{
    match l {
        LineFields::Text(t) => {
            let v = vec![(text_of(t), StyleKind::Body)];
            assert(span_views(v@) =~= spec_line(*l));
            v
        },
        LineFields::Debug(d) => {
            let v = vec![(d.clone(), StyleKind::Body)];
            assert(span_views(v@) =~= spec_line(*l));
            v
        },
        LineFields::Spans(ss) => {
            let mut out: Vec<(String, StyleKind)> = Vec::new();
            let mut i: usize = 0;
            while i < ss.len()
                invariant
                    i <= ss@.len(),
                    span_views(out@) == spec_spans(ss@.take(i as int)),
                decreases ss@.len() - i,
            {
                assert(ss@.take(i + 1).drop_last() =~= ss@.take(i as int));
                let ghost before = out@;
                match &ss[i] {
                    SpanFields::Record { text, style } => {
                        let t = text_of(text);
                        let k = style_of(style);
                        out.push((t, k));
                        assert(span_views(out@) =~= span_views(before).push((t@, k)));
                    },
                    SpanFields::Text(t) => {
                        let t = text_of(t);
                        out.push((t, StyleKind::Body));
                        assert(span_views(out@) =~= span_views(before).push((t@, StyleKind::Body)));
                    },
                    SpanFields::Skip => {},
                }
                i = i + 1;
            }
            assert(ss@.take(ss@.len() as int) =~= ss@);
            if out.len() == 0 {
                out.push((String::new(), StyleKind::Body));
                assert(span_views(out@) =~= spec_line(*l));
            }
            out
        },
    }
}

/// The debug rendering of a non-string, non-table value.
pub open spec fn spec_debug_text(v: LuaVal) -> Seq<char> {
    match v {
        LuaVal::Nil => "Nil"@,
        LuaVal::Boolean(b) => if b {
            "Boolean(true)"@
        } else {
            "Boolean(false)"@
        },
        LuaVal::Integer(_, d) => d@,
        LuaVal::Function(d) => d@,
        LuaVal::Other(d) => d@,
        _ => Seq::empty(),
    }
}

/// Read one span entry of a line table.
fn read_span(e: LuaVal) -> (r: SpanFields)
    ensures
        match e {
            LuaVal::Table(_) => r is Record,
            LuaVal::Str(s) => r == SpanFields::Text(s),
            _ => r is Skip,
        },
{
    match e {
        LuaVal::Table(span_t) => SpanFields::Record {
            text: table_get_string(&span_t, "text").0.ok(),
            style: table_get_string(&span_t, "style").0.ok(),
        },
        LuaVal::Str(s) => SpanFields::Text(s),
        _ => SpanFields::Skip,
    }
}

/// Read the fields of a line value. Only a table is read through; the
/// other shapes are taken as they are.
pub fn read_line_fields(value: LuaVal) -> (r: LineFields)
    ensures
        match value {
            LuaVal::Str(s) => r == LineFields::Text(s),
            LuaVal::Table(_) => r is Spans,
            _ => r matches LineFields::Debug(d) && d@ == spec_debug_text(value),
        },
{
    match value {
        LuaVal::Str(s) => LineFields::Text(s),
        LuaVal::Table(t) => {
            let mut entries = table_sequence(&t);
            let mut spans: Vec<SpanFields> = Vec::new();
            while entries.len() > 0
                decreases entries@.len(),
            {
                let e = entries.remove(0);
                spans.push(read_span(e));
            }
            LineFields::Spans(spans)
        },
        LuaVal::Nil => LineFields::Debug("Nil".to_owned()),
        LuaVal::Boolean(b) => if b {
            LineFields::Debug("Boolean(true)".to_owned())
        } else {
            LineFields::Debug("Boolean(false)".to_owned())
        },
        LuaVal::Integer(_, d) => LineFields::Debug(d),
        LuaVal::Function(d) => LineFields::Debug(d),
        LuaVal::Other(d) => LineFields::Debug(d),
    }
}

/// Convert one Lua-returned line value into `(text, kind)` spans. A
/// bare string is a single `Body` span; a table is an array of
/// `{text, style}` records (or bare strings); unknown style keywords
/// fall back to `Body`. Anything else stringifies to a single `Body`
/// span so a buggy plugin still renders.
pub fn parse_line_value(value: LuaVal) -> (r: Vec<(String, StyleKind)>)
    ensures
        r@.len() >= 1,
        match value {
            LuaVal::Str(s) => span_views(r@) == seq![(spec_text(s), StyleKind::Body)],
            LuaVal::Table(_) => exists|ss: Vec<SpanFields>| span_views(r@) == spec_line(LineFields::Spans(ss)),
            _ => span_views(r@) == seq![(spec_debug_text(value), StyleKind::Body)],
        },
{
    let ghost v = value;
    let fields = read_line_fields(value);
    let r = line_from_fields(&fields);
    proof {
        if let LineFields::Spans(ss) = fields {
            assert(span_views(r@) == spec_line(LineFields::Spans(ss)));
        }
        assert(span_views(r@).len() == r@.len());
    }
    r
}

// ── List items ─────────────────────────────────────────────────────

/// Whether an item's first sequence entry makes it a list of lines: it
/// must be a table whose length is positive.
pub open spec fn spec_looks_like_lines(first_is_table: bool, first_len: Option<i64>) -> bool {
    first_is_table && match first_len {
        Some(n) => n > 0,
        None => false,
    }
}

/// Parse one item value into a list of lines. A table whose first
/// entry is itself a non-empty array is a list of lines; any other
/// table is a single line of spans; any other value is a one-line,
/// one-span fallback.
pub fn parse_item_value(value: LuaVal) -> (r: Vec<Vec<(String, StyleKind)>>)
    ensures
        r@.len() >= 1,
        forall|i: int| 0 <= i < r@.len() ==> #[trigger] r@[i]@.len() >= 1,
        !(value is Table) ==> r@.len() == 1 && span_views(r@[0]@) == (match value {
            LuaVal::Str(s) => seq![(spec_text(s), StyleKind::Body)],
            _ => seq![(spec_debug_text(value), StyleKind::Body)],
        }),
{
    let t = match value {
        LuaVal::Table(t) => t,
        other => {
            let line = parse_line_value(other);
            return vec![line];
        },
    };
    let mut entries = table_sequence(&t);
    if entries.len() == 0 {
        return vec![parse_line_value(LuaVal::Table(t))];
    }
    let first = entries.remove(0);
    let first_lines = match &first {
        LuaVal::Table(inner) => match table_len(inner).ok() {
            Some(n) => n > 0,
            None => false,
        },
        _ => false,
    };
    if !first_lines {
        return vec![parse_line_value(LuaVal::Table(t))];
    }
    let mut out: Vec<Vec<(String, StyleKind)>> = Vec::new();
    out.push(parse_line_value(first));
    while entries.len() > 0
        invariant
            out@.len() >= 1,
            forall|i: int| 0 <= i < out@.len() ==> #[trigger] out@[i]@.len() >= 1,
        decreases entries@.len(),
    {
        let e = entries.remove(0);
        out.push(parse_line_value(e));
    }
    out
}

/// The one line a value that is not a table shows as: a string is its
/// text, anything else its debug rendering, in the body style.
pub open spec fn spec_plain_line(v: LuaVal) -> Seq<(Seq<char>, StyleKind)> {
    match v {
        LuaVal::Str(s) => seq![(spec_text(s), StyleKind::Body)],
        _ => seq![(spec_debug_text(v), StyleKind::Body)],
    }
}

/// One row per item value, in the order given: row `i` is
/// [`parse_item_value`] of value `i`, so a plain value `i` becomes row
/// `i` as the single line [`spec_plain_line`] gives, and every row and
/// line is non-empty.
pub fn parse_item_values(raw: Vec<LuaVal>) -> (r: Vec<Vec<Vec<(String, StyleKind)>>>)
    ensures
        r@.len() == raw@.len(),
        forall|i: int| 0 <= i < r@.len() ==> #[trigger] r@[i]@.len() >= 1,
        forall|i: int, j: int| 0 <= i < r@.len() && 0 <= j < r@[i]@.len() ==> #[trigger] r@[i]@[j]@.len() >= 1,
        forall|i: int| 0 <= i < r@.len() && !(raw@[i] is Table) ==> #[trigger] r@[i]@.len() == 1
            && span_views(r@[i]@[0]@) == spec_plain_line(raw@[i]),
{
    let ghost orig = raw@;
    let mut rest = raw;
    let mut out: Vec<Vec<Vec<(String, StyleKind)>>> = Vec::new();
    while rest.len() > 0
        invariant
            out@.len() + rest@.len() == orig.len(),
            rest@ == orig.skip(out@.len() as int),
            forall|i: int| 0 <= i < out@.len() ==> #[trigger] out@[i]@.len() >= 1,
            forall|i: int, j: int| 0 <= i < out@.len() && 0 <= j < out@[i]@.len() ==> #[trigger] out@[i]@[j]@.len() >= 1,
            forall|i: int| 0 <= i < out@.len() && !(orig[i] is Table) ==> #[trigger] out@[i]@.len() == 1
                && span_views(out@[i]@[0]@) == spec_plain_line(orig[i]),
        decreases rest@.len(),
    {
        let ghost r0 = rest@;
        let ghost n: int = out@.len() as int;
        let v = rest.remove(0);
        assert(r0[0] == orig[n]);
        assert(orig.skip(n + 1) =~= r0.drop_first());
        let row = parse_item_value(v);
        out.push(row);
    }
    out
}

// ── Key handling ───────────────────────────────────────────────────

/// What the Lua `handle_event` handler asked the host to do.
#[derive(Debug, Clone, Copy, PartialEq, Eq, Structural)]
pub enum KeyAction {
    /// Pass the event to the base layer.
    Ignore,
    /// Pop the component off the stack.
    Close,
    /// Treat the event as handled with no further action.
    Consume,
}

/// The action a handler's return value asks for: a table with a truthy
/// `close` closes, else one with a truthy `ignore` ignores; everything
/// else (including `nil`) consumes.
pub open spec fn spec_return_action(is_table: bool, close: bool, ignore: bool) -> KeyAction {
    if is_table && close {
        KeyAction::Close
    } else if is_table && ignore {
        KeyAction::Ignore
    } else {
        KeyAction::Consume
    }
}

/// Truthiness of `t[key]`; `false` when the lookup raised.
fn field_truthy(t: &LuaTable, key: &str) -> (r: bool) {
    match table_get(t, key).0 {
        Ok(v) => {
            let c = v;
            truthy(&c)
        },
        Err(_) => false,
    }
}

/// The truthiness of a returned table's `close` and `ignore` fields.
pub struct ReturnFields {
    pub close: bool,
    pub ignore: bool,
}

/// The action a handler's answer asks for, from the fields read out of
/// it (`None`: the answer was not a table).
pub open spec fn spec_action_from_fields(f: Option<ReturnFields>) -> KeyAction {
    match f {
        Some(t) => spec_return_action(true, t.close, t.ignore),
        None => spec_return_action(false, false, false),
    }
}

/// The action for the fields read out of a handler's answer: `close`
/// wins over `ignore`; a non-table answer, or a table with neither,
/// consumes.
pub fn action_from_fields(f: Option<ReturnFields>) -> (r: KeyAction)
    ensures
        r == spec_action_from_fields(f),
{
    match f {
        Some(t) => if t.close {
            KeyAction::Close
        } else if t.ignore {
            KeyAction::Ignore
        } else {
            KeyAction::Consume
        },
        None => KeyAction::Consume,
    }
}

/// Read a handler's answer: `None` unless it is a table; for a table,
/// the truthiness of `close`, then (only when `close` is not truthy)
/// of `ignore`.
fn read_return_fields(value: LuaVal) -> (r: Option<ReturnFields>)
    ensures
        (r is None) <==> !(value is Table),
{
    match value {
        LuaVal::Table(t) => {
            let close = field_truthy(&t, "close");
            let ignore = if close {
                false
            } else {
                field_truthy(&t, "ignore")
            };
            Some(ReturnFields { close, ignore })
        },
        _ => None,
    }
}

impl KeyAction {
    /// Read a handler's return value: the action
    /// [`spec_action_from_fields`] gives for the fields read out of it,
    /// so any value but a table consumes.
    pub fn from_lua_return(value: LuaVal) -> (r: Self)
        ensures
            exists|f: Option<ReturnFields>|
                (f is None) == !(value is Table) && r == spec_action_from_fields(f),
            !(value is Table) ==> r == KeyAction::Consume,
    {
        let f = read_return_fields(value);
        let ghost g = f;
        let r = action_from_fields(f);
        assert((g is None) == !(value is Table) && r == spec_action_from_fields(g));
        r
    }

    /// The action for the outcome of calling `handle_event`.
    pub fn from_outcome(o: CallOutcome<LuaVal>) -> (r: Self)
        ensures
            o is Missing ==> r == KeyAction::Ignore,
            o is Errored ==> r == KeyAction::Consume,
            (o matches CallOutcome::Returned(v) && !(v is Table)) ==> r == KeyAction::Consume,
            exists|a: CallOutcome<Option<ReturnFields>>| r == spec_answer_action(a) && {
                &&& (a is Missing) == (o is Missing)
                &&& (a is Errored) == (o is Errored)
                &&& (o matches CallOutcome::Returned(v) ==> a matches CallOutcome::Returned(f)
                    && (f is None) == !(v is Table))
            },
    {
        match o {
            CallOutcome::Missing => {
                assert(KeyAction::Ignore == spec_answer_action(CallOutcome::<Option<ReturnFields>>::Missing));
                KeyAction::Ignore
            },
            CallOutcome::Errored => {
                assert(KeyAction::Consume == spec_answer_action(CallOutcome::<Option<ReturnFields>>::Errored));
                KeyAction::Consume
            },
            CallOutcome::Returned(v) => {
                let ghost gv = v;
                let r = Self::from_lua_return(v);
                proof {
                    let f = choose|f: Option<ReturnFields>| (f is None) == !(gv is Table) && r == spec_action_from_fields(f);
                    assert(r == spec_answer_action(CallOutcome::Returned(f)));
                }
                r
            },
        }
    }
}

/// The action a handler's outcome asks for, with a returned answer read
/// into its fields: a missing handler ignores (the event flows to the
/// base layer), a raising one consumes (a buggy plugin cannot leak its
/// keys), an answer acts as [`spec_action_from_fields`] says.
pub open spec fn spec_answer_action(a: CallOutcome<Option<ReturnFields>>) -> KeyAction {
    match a {
        CallOutcome::Missing => KeyAction::Ignore,
        CallOutcome::Errored => KeyAction::Consume,
        CallOutcome::Returned(f) => spec_action_from_fields(f),
    }
}

/// The `code` string (and, for a character key, the character) a key
/// reaches Lua as; keys outside this vocabulary are `"Other"`.
pub open spec fn spec_key_code_to_lua(code: KeyCode) -> (Seq<char>, Option<char>) {
    match code {
        KeyCode::Char(c) => ("Char"@, Some(c)),
        KeyCode::Enter => ("Enter"@, None),
        KeyCode::Esc => ("Esc"@, None),
        KeyCode::Tab => ("Tab"@, None),
        KeyCode::BackTab => ("BackTab"@, None),
        KeyCode::Backspace => ("Backspace"@, None),
        KeyCode::Up => ("Up"@, None),
        KeyCode::Down => ("Down"@, None),
        KeyCode::Left => ("Left"@, None),
        KeyCode::Right => ("Right"@, None),
        KeyCode::Home => ("Home"@, None),
        KeyCode::End => ("End"@, None),
        KeyCode::PageUp => ("PageUp"@, None),
        KeyCode::PageDown => ("PageDown"@, None),
        KeyCode::Delete => ("Delete"@, None),
        KeyCode::Insert => ("Insert"@, None),
        _ => ("Other"@, None),
    }
}

/// Translate a key code into the Lua-side `code` string plus, for
/// `Char(c)`, the character itself.
pub fn key_code_to_lua(code: KeyCode) -> (r: (&'static str, Option<char>))
    ensures
        (r.0@, r.1) == spec_key_code_to_lua(code),
{
    match code {
        KeyCode::Char(c) => ("Char", Some(c)),
        KeyCode::Enter => ("Enter", None),
        KeyCode::Esc => ("Esc", None),
        KeyCode::Tab => ("Tab", None),
        KeyCode::BackTab => ("BackTab", None),
        KeyCode::Backspace => ("Backspace", None),
        KeyCode::Up => ("Up", None),
        KeyCode::Down => ("Down", None),
        KeyCode::Left => ("Left", None),
        KeyCode::Right => ("Right", None),
        KeyCode::Home => ("Home", None),
        KeyCode::End => ("End", None),
        KeyCode::PageUp => ("PageUp", None),
        KeyCode::PageDown => ("PageDown", None),
        KeyCode::Delete => ("Delete", None),
        KeyCode::Insert => ("Insert", None),
        _ => ("Other", None),
    }
}

/// The fields of the key table a handler receives.
pub struct KeyFields {
    pub code: &'static str,
    /// Set only for character keys.
    pub ch: Option<char>,
    pub ctrl: bool,
    pub shift: bool,
    pub alt: bool,
}

/// The key table's fields for a key press.
pub fn key_fields(code: KeyCode, modifiers: KeyModifiers) -> (r: KeyFields)
    ensures
        (r.code@, r.ch) == spec_key_code_to_lua(code),
        r.ctrl == modifiers.has(KeyModifiers { bits: 2 }),
        r.shift == modifiers.has(KeyModifiers { bits: 1 }),
        r.alt == modifiers.has(KeyModifiers { bits: 4 }),
{
    let (c, ch) = key_code_to_lua(code);
    KeyFields {
        code: c,
        ch,
        ctrl: modifiers.contains(KeyModifiers::control()),
        shift: modifiers.contains(KeyModifiers::shift()),
        alt: modifiers.contains(KeyModifiers::alt()),
    }
}

/// The argument a key press is handed to a plugin's `handle_event`
/// as: the key table `{ code, char?, ctrl, shift, alt }` of
/// [`key_fields`].
pub fn key_arg(code: KeyCode, modifiers: KeyModifiers) -> (r: CallArg)
    ensures
        r matches CallArg::Key { code: c, ch, ctrl, shift, alt } && {
            &&& (c@, ch) == spec_key_code_to_lua(code)
            &&& ctrl == modifiers.has(KeyModifiers { bits: 2 })
            &&& shift == modifiers.has(KeyModifiers { bits: 1 })
            &&& alt == modifiers.has(KeyModifiers { bits: 4 })
        },
{
    let f = key_fields(code, modifiers);
    CallArg::Key { code: f.code, ch: f.ch, ctrl: f.ctrl, shift: f.shift, alt: f.alt }
}

/// A key reaches a plugin under its own name: each arrow, `Enter`,
/// `Esc`, `Tab` and `Backspace` is handed to Lua as the name the key
/// binding notation uses for that same key (so `Up` is `"Up"`, `Down`
/// is `"Down"`), with no character; a character key is `"Char"` with
/// the character itself.
pub proof fn law_lua_key_names_are_the_keys_own(code: KeyCode)
    ensures
        (code is Left || code is Right || code is Up || code is Down || code is Enter || code is Esc
            || code is Tab || code is Backspace) ==> spec_parse_key_code(spec_key_code_to_lua(code).0) == Some(code)
            && spec_key_code_to_lua(code).1 is None,
        code matches KeyCode::Char(c) ==> spec_key_code_to_lua(code).0 == "Char"@ && spec_key_code_to_lua(code).1
            == Some(c),
{
    reveal_strlit("Char");
    reveal_strlit("Enter");
    reveal_strlit("Esc");
    reveal_strlit("Tab");
    reveal_strlit("BackTab");
    reveal_strlit("Backspace");
    reveal_strlit("Up");
    reveal_strlit("Down");
    reveal_strlit("Left");
    reveal_strlit("Right");
    reveal_strlit("Home");
    reveal_strlit("End");
    reveal_strlit("PageUp");
    reveal_strlit("PageDown");
    reveal_strlit("Delete");
    reveal_strlit("Insert");
    reveal_strlit("Other");
    assert("Char"@.len() == 4 && "Char"@[0] == 'C' && "Char"@[1] == 'h');
    assert("Enter"@.len() == 5 && "Enter"@[0] == 'E' && "Enter"@[1] == 'n');
    assert("Esc"@.len() == 3 && "Esc"@[0] == 'E' && "Esc"@[1] == 's');
    assert("Tab"@.len() == 3 && "Tab"@[0] == 'T' && "Tab"@[1] == 'a');
    assert("BackTab"@.len() == 7 && "BackTab"@[0] == 'B' && "BackTab"@[1] == 'a');
    assert("Backspace"@.len() == 9 && "Backspace"@[0] == 'B' && "Backspace"@[1] == 'a');
    assert("Up"@.len() == 2 && "Up"@[0] == 'U' && "Up"@[1] == 'p');
    assert("Down"@.len() == 4 && "Down"@[0] == 'D' && "Down"@[1] == 'o');
    assert("Left"@.len() == 4 && "Left"@[0] == 'L' && "Left"@[1] == 'e');
    assert("Right"@.len() == 5 && "Right"@[0] == 'R' && "Right"@[1] == 'i');
    assert("Home"@.len() == 4 && "Home"@[0] == 'H' && "Home"@[1] == 'o');
    assert("End"@.len() == 3 && "End"@[0] == 'E' && "End"@[1] == 'n');
    assert("PageUp"@.len() == 6 && "PageUp"@[0] == 'P' && "PageUp"@[1] == 'a');
    assert("PageDown"@.len() == 8 && "PageDown"@[0] == 'P' && "PageDown"@[1] == 'a');
    assert("Delete"@.len() == 6 && "Delete"@[0] == 'D' && "Delete"@[1] == 'e');
    assert("Insert"@.len() == 6 && "Insert"@[0] == 'I' && "Insert"@[1] == 'n');
    assert("Other"@.len() == 5 && "Other"@[0] == 'O' && "Other"@[1] == 't');
}

/// Distinct keys reach a plugin as distinct key tables: two different
/// keys that both have a name (not `"Other"`) never share their `code`
/// string and character.
pub proof fn law_lua_key_names_distinct(a: KeyCode, b: KeyCode)
    requires
        a != b,
        spec_key_code_to_lua(a).0 != "Other"@,
        spec_key_code_to_lua(b).0 != "Other"@,
    ensures
        spec_key_code_to_lua(a) != spec_key_code_to_lua(b),
{
    reveal_strlit("Char");
    reveal_strlit("Enter");
    reveal_strlit("Esc");
    reveal_strlit("Tab");
    reveal_strlit("BackTab");
    reveal_strlit("Backspace");
    reveal_strlit("Up");
    reveal_strlit("Down");
    reveal_strlit("Left");
    reveal_strlit("Right");
    reveal_strlit("Home");
    reveal_strlit("End");
    reveal_strlit("PageUp");
    reveal_strlit("PageDown");
    reveal_strlit("Delete");
    reveal_strlit("Insert");
    reveal_strlit("Other");
    assert("Char"@.len() == 4 && "Char"@[0] == 'C' && "Char"@[1] == 'h');
    assert("Enter"@.len() == 5 && "Enter"@[0] == 'E' && "Enter"@[1] == 'n');
    assert("Esc"@.len() == 3 && "Esc"@[0] == 'E' && "Esc"@[1] == 's');
    assert("Tab"@.len() == 3 && "Tab"@[0] == 'T' && "Tab"@[1] == 'a');
    assert("BackTab"@.len() == 7 && "BackTab"@[0] == 'B' && "BackTab"@[1] == 'a');
    assert("Backspace"@.len() == 9 && "Backspace"@[0] == 'B' && "Backspace"@[1] == 'a');
    assert("Up"@.len() == 2 && "Up"@[0] == 'U' && "Up"@[1] == 'p');
    assert("Down"@.len() == 4 && "Down"@[0] == 'D' && "Down"@[1] == 'o');
    assert("Left"@.len() == 4 && "Left"@[0] == 'L' && "Left"@[1] == 'e');
    assert("Right"@.len() == 5 && "Right"@[0] == 'R' && "Right"@[1] == 'i');
    assert("Home"@.len() == 4 && "Home"@[0] == 'H' && "Home"@[1] == 'o');
    assert("End"@.len() == 3 && "End"@[0] == 'E' && "End"@[1] == 'n');
    assert("PageUp"@.len() == 6 && "PageUp"@[0] == 'P' && "PageUp"@[1] == 'a');
    assert("PageDown"@.len() == 8 && "PageDown"@[0] == 'P' && "PageDown"@[1] == 'a');
    assert("Delete"@.len() == 6 && "Delete"@[0] == 'D' && "Delete"@[1] == 'e');
    assert("Insert"@.len() == 6 && "Insert"@[0] == 'I' && "Insert"@[1] == 'n');
    assert("Other"@.len() == 5 && "Other"@[0] == 'O' && "Other"@[1] == 't');
}

} // verus!
