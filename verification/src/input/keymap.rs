//! Key binding table — the `key → UserIntent` data used by the keyboard
//! handler, the key-string parser and its display form, and the
//! override shape user configuration applies on top of the defaults.
use vstd::prelude::*;
use crate::frontend::UserIntent;
use crate::keys::{KeyCode, KeyModifiers};
use crate::map::{spec_from_config_name, Action};
use crate::text::{char_to_string, concat, str_chars, str_is};

verus! {

/// A key binding: a key code plus modifiers.
#[derive(Debug, Clone, Copy, PartialEq, Eq, Hash, Structural)]
pub struct KeyBinding {
    pub code: KeyCode,
    pub modifiers: KeyModifiers,
}

// ── Key-string notation ───────────────────────────────────────────

/// The key code a key name stands for: one of the named keys, or a
/// single ASCII character (a one-byte string).
pub open spec fn spec_parse_key_code(s: Seq<char>) -> Option<KeyCode> {
    if s == "Left"@ {
        Some(KeyCode::Left)
    } else if s == "Right"@ {
        Some(KeyCode::Right)
    } else if s == "Up"@ {
        Some(KeyCode::Up)
    } else if s == "Down"@ {
        Some(KeyCode::Down)
    } else if s == "Enter"@ {
        Some(KeyCode::Enter)
    } else if s == "Esc"@ {
        Some(KeyCode::Esc)
    } else if s == "Tab"@ {
        Some(KeyCode::Tab)
    } else if s == "Backspace"@ {
        Some(KeyCode::Backspace)
    } else if s.len() == 1 && (s[0] as u32) < 0x80 {
        Some(KeyCode::Char(s[0]))
    } else {
        None
    }
}

/// `s` starts with the two characters `a`, `b`.
pub open spec fn has_prefix2(s: Seq<char>, a: char, b: char) -> bool {
    s.len() >= 2 && s[0] == a && s[1] == b
}

/// The binding a key string denotes: `"C-x"` is Ctrl+x, `"S-x"` is
/// Shift+x, anything else is the bare key.
pub open spec fn spec_parse_key_binding(s: Seq<char>) -> Option<KeyBinding> {
    if has_prefix2(s, 'C', '-') {
        match spec_parse_key_code(s.skip(2)) {
            Some(code) => Some(KeyBinding { code, modifiers: KeyModifiers { bits: 2 } }),
            None => None,
        }
    } else if has_prefix2(s, 'S', '-') {
        match spec_parse_key_code(s.skip(2)) {
            Some(code) => Some(KeyBinding { code, modifiers: KeyModifiers { bits: 1 } }),
            None => None,
        }
    } else {
        match spec_parse_key_code(s) {
            Some(code) => Some(KeyBinding { code, modifiers: KeyModifiers { bits: 0 } }),
            None => None,
        }
    }
}

/// The display name of a key code.
pub open spec fn spec_key_name(code: KeyCode) -> Seq<char> {
    match code {
        KeyCode::Char(c) => seq![c],
        KeyCode::Left => "Left"@,
        KeyCode::Right => "Right"@,
        KeyCode::Up => "Up"@,
        KeyCode::Down => "Down"@,
        KeyCode::Enter => "Enter"@,
        KeyCode::Esc => "Esc"@,
        KeyCode::Tab => "Tab"@,
        KeyCode::Backspace => "Backspace"@,
        _ => "?"@,
    }
}

/// The display form of a binding: Ctrl wins over Shift as prefix.
pub open spec fn spec_display(b: KeyBinding) -> Seq<char> {
    if b.modifiers.has(KeyModifiers { bits: 2 }) {
        "C-"@ + spec_key_name(b.code)
    } else if b.modifiers.has(KeyModifiers { bits: 1 }) {
        "S-"@ + spec_key_name(b.code)
    } else {
        spec_key_name(b.code)
    }
}

/// Parse a key name: `"Left"`, `"Enter"`, …, or one ASCII character.
pub fn parse_key_code(s: &str) -> (r: Option<KeyCode>)
    ensures
        r == spec_parse_key_code(s@),
{
    if str_is(s, "Left") {
        Some(KeyCode::Left)
    } else if str_is(s, "Right") {
        Some(KeyCode::Right)
    } else if str_is(s, "Up") {
        Some(KeyCode::Up)
    } else if str_is(s, "Down") {
        Some(KeyCode::Down)
    } else if str_is(s, "Enter") {
        Some(KeyCode::Enter)
    } else if str_is(s, "Esc") {
        Some(KeyCode::Esc)
    } else if str_is(s, "Tab") {
        Some(KeyCode::Tab)
    } else if str_is(s, "Backspace") {
        Some(KeyCode::Backspace)
    } else {
        let cs = str_chars(s);
        if cs.len() == 1 && (cs[0] as u32) < 0x80 {
            Some(KeyCode::Char(cs[0]))
        } else {
            None
        }
    }
}

/// Parse a key binding string like `"h"`, `"Left"`, `"C-d"`.
/// Notation: `"C-x"` for Ctrl+x, `"S-x"` for Shift+x, `"Left"` /
/// `"Enter"` / etc. for special keys.
pub fn parse_key_binding(s: &str) -> (r: Option<KeyBinding>)
    ensures
        r == spec_parse_key_binding(s@),
{
    let cs = str_chars(s);
    let n = cs.len();
    if n >= 2 && cs[0] == 'C' && cs[1] == '-' {
        let rest = s.substring_char(2, n);
        assert(rest@ == s@.skip(2));
        match parse_key_code(rest) {
            Some(code) => Some(KeyBinding { code, modifiers: KeyModifiers::control() }),
            None => None,
        }
    } else if n >= 2 && cs[0] == 'S' && cs[1] == '-' {
        let rest = s.substring_char(2, n);
        assert(rest@ == s@.skip(2));
        match parse_key_code(rest) {
            Some(code) => Some(KeyBinding { code, modifiers: KeyModifiers::shift() }),
            None => None,
        }
    } else {
        match parse_key_code(s) {
            Some(code) => Some(KeyBinding { code, modifiers: KeyModifiers::none() }),
            None => None,
        }
    }
}

impl KeyBinding {
    /// Human-readable form for UI display (help overlay, command
    /// palette). Matches the input notation accepted by
    /// [`parse_key_binding`] for plain keys (`"h"`, `"Left"`, `"C-d"`,
    /// `"Backspace"`).
    pub fn display(&self) -> (r: String)
        ensures
            r@ == spec_display(*self),
    {
        let key = match self.code {
            KeyCode::Char(c) => char_to_string(c),
            KeyCode::Left => "Left".to_owned(),
            KeyCode::Right => "Right".to_owned(),
            KeyCode::Up => "Up".to_owned(),
            KeyCode::Down => "Down".to_owned(),
            KeyCode::Enter => "Enter".to_owned(),
            KeyCode::Esc => "Esc".to_owned(),
            KeyCode::Tab => "Tab".to_owned(),
            KeyCode::Backspace => "Backspace".to_owned(),
            _ => "?".to_owned(),
        };
        if self.modifiers.contains(KeyModifiers::control()) {
            concat("C-", key.as_str())
        } else if self.modifiers.contains(KeyModifiers::shift()) {
            concat("S-", key.as_str())
        } else {
            key
        }
    }
}

/// Display is a left inverse of parsing: every key string the parser
/// accepts is displayed exactly as it was written.
pub proof fn lemma_display_inverts_parse(s: Seq<char>)
    requires
        spec_parse_key_binding(s) is Some,
    ensures
        spec_display(spec_parse_key_binding(s)->0) == s,
{
    reveal_strlit("Left");
    reveal_strlit("Right");
    reveal_strlit("Up");
    reveal_strlit("Down");
    reveal_strlit("Enter");
    reveal_strlit("Esc");
    reveal_strlit("Tab");
    reveal_strlit("Backspace");
    reveal_strlit("C-");
    reveal_strlit("S-");
    assert((2u8 & 2u8) == 2u8) by (bit_vector);
    assert((1u8 & 2u8) != 2u8) by (bit_vector);
    assert((1u8 & 1u8) == 1u8) by (bit_vector);
    assert((0u8 & 2u8) != 2u8) by (bit_vector);
    assert((0u8 & 1u8) != 1u8) by (bit_vector);
    let b = spec_parse_key_binding(s)->0;
    let rest = if has_prefix2(s, 'C', '-') || has_prefix2(s, 'S', '-') {
        s.skip(2)
    } else {
        s
    };
    assert(spec_parse_key_code(rest) == Some(b.code));
    assert(spec_key_name(b.code) =~= rest);
    if has_prefix2(s, 'C', '-') || has_prefix2(s, 'S', '-') {
        assert(spec_display(b) =~= s);
    }
}

/// Parsing the display form of a parsed binding gives the binding
/// back.
pub proof fn lemma_parse_display_round_trip(s: Seq<char>)
    requires
        spec_parse_key_binding(s) is Some,
    ensures
        spec_parse_key_binding(spec_display(spec_parse_key_binding(s)->0))
            == spec_parse_key_binding(s),
{
    lemma_display_inverts_parse(s);
}

// ── Binding table ─────────────────────────────────────────────────

/// One row of the binding table.
pub type BindingRow = (KeyBinding, UserIntent);

/// `row` answers a key event whose shift-less modifiers are `clean`.
pub open spec fn row_matches<T>(row: (KeyBinding, T), code: KeyCode, clean: KeyModifiers) -> bool {
    row.0.code == code && row.0.modifiers == clean
}

/// The command of the first row bound to `code` + `clean`.
pub open spec fn spec_first_bound<T>(rows: Seq<(KeyBinding, T)>, code: KeyCode, clean: KeyModifiers) -> Option<T>
    decreases rows.len(),
{
    if rows.len() == 0 {
        None
    } else if row_matches(rows[0], code, clean) {
        Some(rows[0].1)
    } else {
        spec_first_bound(rows.drop_first(), code, clean)
    }
}

/// What a lookup of a key event answers: shift is ignored.
pub open spec fn spec_lookup<T>(rows: Seq<(KeyBinding, T)>, code: KeyCode, modifiers: KeyModifiers) -> Option<T> {
    spec_first_bound(rows, code, modifiers.spec_without_shift())
}

/// The display forms of every row bound to `cmd`, in table order.
pub open spec fn spec_keys_for<T>(rows: Seq<(KeyBinding, T)>, cmd: T) -> Seq<Seq<char>>
    decreases rows.len(),
{
    if rows.len() == 0 {
        Seq::empty()
    } else {
        let rest = spec_keys_for(rows.drop_last(), cmd);
        if rows.last().1 == cmd {
            rest.push(spec_display(rows.last().0))
        } else {
            rest
        }
    }
}

/// The rows not bound to `cmd`, in table order.
pub open spec fn spec_without_cmd<T>(rows: Seq<(KeyBinding, T)>, cmd: T) -> Seq<(KeyBinding, T)>
    decreases rows.len(),
{
    if rows.len() == 0 {
        Seq::<(KeyBinding, T)>::empty()
    } else {
        let rest = spec_without_cmd(rows.drop_last(), cmd);
        if rows.last().1 == cmd {
            rest
        } else {
            rest.push(rows.last())
        }
    }
}

/// The rows that binding `keys` to `cmd` adds: one per key string
/// that parses, in order; strings that do not parse are skipped.
pub open spec fn spec_parsed_rows<T>(keys: Seq<Seq<char>>, cmd: T) -> Seq<(KeyBinding, T)>
    decreases keys.len(),
{
    if keys.len() == 0 {
        Seq::empty()
    } else {
        let rest = spec_parsed_rows(keys.drop_last(), cmd);
        match spec_parse_key_binding(keys.last()) {
            Some(b) => rest.push((b, cmd)),
            None => rest,
        }
    }
}

/// The table after replacing every binding of `cmd` by `keys`.
pub open spec fn spec_set_bindings<T>(rows: Seq<(KeyBinding, T)>, cmd: T, keys: Seq<Seq<char>>) -> Seq<(KeyBinding, T)> {
    spec_without_cmd(rows, cmd) + spec_parsed_rows(keys, cmd)
}

/// The views of a list of strings.
pub open spec fn string_views(v: Seq<String>) -> Seq<Seq<char>> {
    v.map_values(|s: String| s@)
}

/// User `[keymap]` overrides: pairs of an action's configuration name
/// (e.g. `"pan_left"`) and the key strings that replace its default
/// bindings. Applied in order by [`KeyMap::with_overrides`].
pub type KeybindingOverrides = Vec<(String, Vec<String>)>;

/// The table after applying `overrides` in order on top of `rows`;
/// entries whose name is not a bindable action are skipped.
pub open spec fn spec_apply_overrides(rows: Seq<BindingRow>, overrides: Seq<(String, Vec<String>)>) -> Seq<BindingRow>
    decreases overrides.len(),
{
    if overrides.len() == 0 {
        rows
    } else {
        let before = spec_apply_overrides(rows, overrides.drop_last());
        let (name, keys) = overrides.last();
        match spec_from_config_name(name@) {
            Some(a) => spec_set_bindings(before, UserIntent::MapAction(a), string_views(keys@)),
            None => before,
        }
    }
}

/// The built-in bindings, in table order.
pub open spec fn spec_default_rows() -> Seq<BindingRow> {
    let none = KeyModifiers { bits: 0 };
    let ctrl = KeyModifiers { bits: 2 };
    seq![
        (KeyBinding { code: KeyCode::Char('h'), modifiers: none }, UserIntent::MapAction(Action::PanLeft)),
        (KeyBinding { code: KeyCode::Left, modifiers: none }, UserIntent::MapAction(Action::PanLeft)),
        (KeyBinding { code: KeyCode::Char('l'), modifiers: none }, UserIntent::MapAction(Action::PanRight)),
        (KeyBinding { code: KeyCode::Right, modifiers: none }, UserIntent::MapAction(Action::PanRight)),
        (KeyBinding { code: KeyCode::Char('k'), modifiers: none }, UserIntent::MapAction(Action::PanUp)),
        (KeyBinding { code: KeyCode::Up, modifiers: none }, UserIntent::MapAction(Action::PanUp)),
        (KeyBinding { code: KeyCode::Char('j'), modifiers: none }, UserIntent::MapAction(Action::PanDown)),
        (KeyBinding { code: KeyCode::Down, modifiers: none }, UserIntent::MapAction(Action::PanDown)),
        (KeyBinding { code: KeyCode::Char('b'), modifiers: none }, UserIntent::MapAction(Action::PanLeftFast)),
        (KeyBinding { code: KeyCode::Char('w'), modifiers: none }, UserIntent::MapAction(Action::PanRightFast)),
        (KeyBinding { code: KeyCode::Char('u'), modifiers: ctrl }, UserIntent::MapAction(Action::PanUpHalf)),
        (KeyBinding { code: KeyCode::Char('d'), modifiers: ctrl }, UserIntent::MapAction(Action::PanDownHalf)),
        (KeyBinding { code: KeyCode::Char('a'), modifiers: none }, UserIntent::MapAction(Action::ZoomIn)),
        (KeyBinding { code: KeyCode::Char('+'), modifiers: none }, UserIntent::MapAction(Action::ZoomIn)),
        (KeyBinding { code: KeyCode::Char('z'), modifiers: none }, UserIntent::MapAction(Action::ZoomOut)),
        (KeyBinding { code: KeyCode::Char('-'), modifiers: none }, UserIntent::MapAction(Action::ZoomOut)),
        (KeyBinding { code: KeyCode::Char('0'), modifiers: none }, UserIntent::MapAction(Action::ResetPosition)),
        (KeyBinding { code: KeyCode::Char('q'), modifiers: none }, UserIntent::MapAction(Action::Quit)),
    ]
}

/// The key → command table.
pub struct KeyMap {
    pub bindings: Vec<BindingRow>,
}

/// A bare key (no modifiers) bound to a map action.
fn plain(code: KeyCode, action: Action) -> (r: BindingRow)
    ensures
        r == (KeyBinding { code, modifiers: KeyModifiers { bits: 0 } }, UserIntent::MapAction(action)),
{
    (KeyBinding { code, modifiers: KeyModifiers::none() }, UserIntent::MapAction(action))
}

/// A Ctrl-chord bound to a map action.
fn ctrl(code: KeyCode, action: Action) -> (r: BindingRow)
    ensures
        r == (KeyBinding { code, modifiers: KeyModifiers { bits: 2 } }, UserIntent::MapAction(action)),
{
    (KeyBinding { code, modifiers: KeyModifiers::control() }, UserIntent::MapAction(action))
}

impl Default for KeyMap {
    fn default() -> (r: KeyMap)
        ensures
            r.bindings@ == spec_default_rows(),
    {
        let bindings = vec![
            plain(KeyCode::Char('h'), Action::PanLeft),
            plain(KeyCode::Left, Action::PanLeft),
            plain(KeyCode::Char('l'), Action::PanRight),
            plain(KeyCode::Right, Action::PanRight),
            plain(KeyCode::Char('k'), Action::PanUp),
            plain(KeyCode::Up, Action::PanUp),
            plain(KeyCode::Char('j'), Action::PanDown),
            plain(KeyCode::Down, Action::PanDown),
            plain(KeyCode::Char('b'), Action::PanLeftFast),
            plain(KeyCode::Char('w'), Action::PanRightFast),
            ctrl(KeyCode::Char('u'), Action::PanUpHalf),
            ctrl(KeyCode::Char('d'), Action::PanDownHalf),
            plain(KeyCode::Char('a'), Action::ZoomIn),
            plain(KeyCode::Char('+'), Action::ZoomIn),
            plain(KeyCode::Char('z'), Action::ZoomOut),
            plain(KeyCode::Char('-'), Action::ZoomOut),
            plain(KeyCode::Char('0'), Action::ResetPosition),
            plain(KeyCode::Char('q'), Action::Quit),
        ];
        let km = KeyMap { bindings };
        assert(km.bindings@ =~= spec_default_rows());
        km
    }
}

impl KeyMap {
    /// Look up the command for a key event. Returns `None` if no
    /// binding matches; when several match, the first in table order
    /// wins. Shift is ignored. Stateless — multi-key sequences (e.g.
    /// `gg`) are owned by the keyboard handler, not the keymap.
    pub fn lookup(&self, code: KeyCode, modifiers: KeyModifiers) -> (r: Option<&UserIntent>)
        ensures
            match r {
                Some(c) => spec_lookup(self.bindings@, code, modifiers) == Some(*c),
                None => spec_lookup(self.bindings@, code, modifiers) is None,
            },
    {
        let clean = modifiers.without_shift();
        assert(self.bindings@.skip(0) =~= self.bindings@);
        let mut i: usize = 0;
        while i < self.bindings.len()
            invariant
                i <= self.bindings@.len(),
                clean == modifiers.spec_without_shift(),
                spec_lookup(self.bindings@, code, modifiers)
                    == spec_first_bound(self.bindings@.skip(i as int), code, clean),
            decreases self.bindings@.len() - i,
        {
            let row = &self.bindings[i];
            assert(self.bindings@.skip(i as int)[0] == self.bindings@[i as int]);
            if row.0.code == code && row.0.modifiers == clean {
                return Some(&self.bindings[i].1);
            }
            assert(self.bindings@.skip(i as int).drop_first() =~= self.bindings@.skip(i + 1));
            i = i + 1;
        }
        None
    }

    /// Resolve a key event to an owned `UserIntent`: the command
    /// [`Self::lookup`] finds. Plugin activation (e.g. `/` opens
    /// search) is not handled here.
    pub fn resolve(&self, code: KeyCode, modifiers: KeyModifiers) -> (r: Option<UserIntent>)
        ensures
            r == spec_lookup(self.bindings@, code, modifiers),
    {
        match self.lookup(code, modifiers) {
            Some(c) => Some(*c),
            None => None,
        }
    }

    /// Every key string currently bound to `cmd`, in registration
    /// order, in display form.
    pub fn keys_for(&self, cmd: &UserIntent) -> (r: Vec<String>)
        ensures
            string_views(r@) == spec_keys_for(self.bindings@, *cmd),
    {
        let mut out: Vec<String> = Vec::new();
        let mut i: usize = 0;
        while i < self.bindings.len()
            invariant
                i <= self.bindings@.len(),
                string_views(out@) == spec_keys_for(self.bindings@.take(i as int), *cmd),
            decreases self.bindings@.len() - i,
        {
            let ghost before = out@;
            assert(self.bindings@.take(i + 1).drop_last() =~= self.bindings@.take(i as int));
            if self.bindings[i].1 == *cmd {
                let shown = self.bindings[i].0.display();
                out.push(shown);
                assert(string_views(out@) =~= string_views(before).push(shown@));
            }
            i = i + 1;
        }
        assert(self.bindings@.take(self.bindings@.len() as int) =~= self.bindings@);
        out
    }

    /// Replace every existing binding for `cmd` with the supplied list
    /// of key strings (e.g. `["h", "Left"]`). The other rows keep
    /// their order; the new rows follow them in the order given.
    /// Invalid key strings are skipped.
    pub fn set_bindings(&mut self, cmd: UserIntent, keys: &[String])
        ensures
            final(self).bindings@ == spec_set_bindings(old(self).bindings@, cmd, string_views(keys@)),
    {
        let ghost rows = self.bindings@;
        let mut kept: Vec<BindingRow> = Vec::new();
        let mut i: usize = 0;
        while i < self.bindings.len()
            invariant
                rows == self.bindings@,
                i <= rows.len(),
                kept@ == spec_without_cmd(rows.take(i as int), cmd),
            decreases rows.len() - i,
        {
            assert(rows.take(i + 1).drop_last() =~= rows.take(i as int));
            if self.bindings[i].1 != cmd {
                kept.push(self.bindings[i]);
            }
            i = i + 1;
        }
        assert(rows.take(rows.len() as int) =~= rows);
        let ghost base = kept@;
        let mut j: usize = 0;
        while j < keys.len()
            invariant
                j <= keys@.len(),
                base == spec_without_cmd(rows, cmd),
                kept@ == base + spec_parsed_rows(string_views(keys@).take(j as int), cmd),
            decreases keys@.len() - j,
        {
            assert(string_views(keys@).take(j + 1).drop_last() =~= string_views(keys@).take(j as int));
            match parse_key_binding(keys[j].as_str()) {
                Some(b) => {
                    kept.push((b, cmd));
                },
                None => {},
            }
            j = j + 1;
            assert(kept@ =~= base + spec_parsed_rows(string_views(keys@).take(j as int), cmd));
        }
        assert(string_views(keys@).take(keys@.len() as int) =~= string_views(keys@));
        self.bindings = kept;
    }

    /// Default bindings with user `[keymap]` overrides applied on top,
    /// in order. Each entry's name is an action's configuration name
    /// (e.g. `"pan_left"`); unknown names are skipped so a stale
    /// config can't break startup.
    pub fn with_overrides(overrides: &KeybindingOverrides) -> (r: KeyMap)
        ensures
            r.bindings@ == spec_apply_overrides(spec_default_rows(), overrides@),
    {
        let mut km = KeyMap::default();
        let mut i: usize = 0;
        while i < overrides.len()
            invariant
                i <= overrides@.len(),
                km.bindings@ == spec_apply_overrides(spec_default_rows(), overrides@.take(i as int)),
            decreases overrides@.len() - i,
        {
            assert(overrides@.take(i + 1).drop_last() =~= overrides@.take(i as int));
            let (name, keys) = &overrides[i];
            match Action::from_config_name(name.as_str()) {
                Some(action) => km.set_bindings(UserIntent::MapAction(action), keys.as_slice()),
                None => {},
            }
            i = i + 1;
        }
        assert(overrides@.take(overrides@.len() as int) =~= overrides@);
        km
    }
}

// ── Laws ─────────────────────────────────────────────────────────

/// The display forms of the key strings that parse, in order.
pub open spec fn spec_parsed_displays(keys: Seq<Seq<char>>) -> Seq<Seq<char>>
    decreases keys.len(),
{
    if keys.len() == 0 {
        Seq::empty()
    } else {
        let rest = spec_parsed_displays(keys.drop_last());
        match spec_parse_key_binding(keys.last()) {
            Some(b) => rest.push(spec_display(b)),
            None => rest,
        }
    }
}

/// Every key string parses.
pub open spec fn all_displayable(keys: Seq<Seq<char>>) -> bool {
    forall|i: int| 0 <= i < keys.len() ==> (#[trigger] spec_parse_key_binding(keys[i])) is Some
}

proof fn lemma_keys_for_concat<T>(a: Seq<(KeyBinding, T)>, b: Seq<(KeyBinding, T)>, cmd: T)
    ensures
        spec_keys_for(a + b, cmd) == spec_keys_for(a, cmd) + spec_keys_for(b, cmd),
    decreases b.len(),
{
    if b.len() == 0 {
        assert(a + b =~= a);
        assert(spec_keys_for(a, cmd) + spec_keys_for(b, cmd) =~= spec_keys_for(a, cmd));
    } else {
        assert((a + b).drop_last() =~= a + b.drop_last());
        assert((a + b).last() == b.last());
        lemma_keys_for_concat(a, b.drop_last(), cmd);
        if b.last().1 == cmd {
            assert(spec_keys_for(a, cmd) + spec_keys_for(b.drop_last(), cmd).push(spec_display(b.last().0))
                =~= (spec_keys_for(a, cmd) + spec_keys_for(b.drop_last(), cmd)).push(spec_display(b.last().0)));
        }
    }
}

proof fn lemma_keys_for_without<T>(rows: Seq<(KeyBinding, T)>, cmd: T)
    ensures
        spec_keys_for(spec_without_cmd(rows, cmd), cmd) == Seq::<Seq<char>>::empty(),
    decreases rows.len(),
{
    if rows.len() > 0 {
        lemma_keys_for_without(rows.drop_last(), cmd);
        let rest = spec_without_cmd(rows.drop_last(), cmd);
        if rows.last().1 != cmd {
            assert(rest.push(rows.last()).drop_last() =~= rest);
        }
    }
}

proof fn lemma_keys_for_parsed<T>(keys: Seq<Seq<char>>, cmd: T)
    ensures
        spec_keys_for(spec_parsed_rows(keys, cmd), cmd) == spec_parsed_displays(keys),
    decreases keys.len(),
{
    if keys.len() > 0 {
        lemma_keys_for_parsed(keys.drop_last(), cmd);
        let rest = spec_parsed_rows(keys.drop_last(), cmd);
        match spec_parse_key_binding(keys.last()) {
            Some(b) => {
                assert(rest.push((b, cmd)).drop_last() =~= rest);
            },
            None => {},
        }
    }
}

proof fn lemma_parsed_displays_identity(keys: Seq<Seq<char>>)
    requires
        all_displayable(keys),
    ensures
        spec_parsed_displays(keys) == keys,
    decreases keys.len(),
{
    if keys.len() > 0 {
        let init = keys.drop_last();
        assert forall|i: int| 0 <= i < init.len() implies (#[trigger] spec_parse_key_binding(init[i])) is Some by {
            assert(init[i] == keys[i]);
        }
        lemma_parsed_displays_identity(init);
        assert(spec_parse_key_binding(keys[keys.len() - 1]) is Some);
        lemma_display_inverts_parse(keys.last());
        assert(init.push(keys.last()) =~= keys);
    }
}

/// Rebinding a command and then asking which keys it has gives back
/// exactly the keys it was bound to, in order, whatever the table
/// held before — for key strings that all parse.
pub proof fn law_set_bindings_then_keys_for<T>(rows: Seq<(KeyBinding, T)>, cmd: T, keys: Seq<Seq<char>>)
    requires
        all_displayable(keys),
    ensures
        spec_keys_for(spec_set_bindings(rows, cmd, keys), cmd) == keys,
{
    lemma_keys_for_concat(spec_without_cmd(rows, cmd), spec_parsed_rows(keys, cmd), cmd);
    lemma_keys_for_without(rows, cmd);
    lemma_keys_for_parsed(keys, cmd);
    lemma_parsed_displays_identity(keys);
    assert(Seq::<Seq<char>>::empty() + keys =~= keys);
}

/// Rebinding one command leaves every row of every other command in
/// place and in order.
pub proof fn law_set_bindings_keeps_other_commands<T>(rows: Seq<(KeyBinding, T)>, cmd: T, keys: Seq<Seq<char>>, other: T)
    requires
        other != cmd,
    ensures
        spec_keys_for(spec_set_bindings(rows, cmd, keys), other) == spec_keys_for(rows, other),
{
    lemma_keys_for_concat(spec_without_cmd(rows, cmd), spec_parsed_rows(keys, cmd), other);
    lemma_keys_for_without_other(rows, cmd, other);
    lemma_keys_for_parsed_other(keys, cmd, other);
    assert(spec_keys_for(rows, other) + Seq::<Seq<char>>::empty() =~= spec_keys_for(rows, other));
}

proof fn lemma_keys_for_without_other<T>(rows: Seq<(KeyBinding, T)>, cmd: T, other: T)
    requires
        other != cmd,
    ensures
        spec_keys_for(spec_without_cmd(rows, cmd), other) == spec_keys_for(rows, other),
    decreases rows.len(),
{
    if rows.len() > 0 {
        lemma_keys_for_without_other(rows.drop_last(), cmd, other);
        let rest = spec_without_cmd(rows.drop_last(), cmd);
        if rows.last().1 != cmd {
            assert(rest.push(rows.last()).drop_last() =~= rest);
        }
    }
}

proof fn lemma_keys_for_parsed_other<T>(keys: Seq<Seq<char>>, cmd: T, other: T)
    requires
        other != cmd,
    ensures
        spec_keys_for(spec_parsed_rows(keys, cmd), other) == Seq::<Seq<char>>::empty(),
    decreases keys.len(),
{
    if keys.len() > 0 {
        lemma_keys_for_parsed_other(keys.drop_last(), cmd, other);
        let rest = spec_parsed_rows(keys.drop_last(), cmd);
        match spec_parse_key_binding(keys.last()) {
            Some(b) => {
                assert(rest.push((b, cmd)).drop_last() =~= rest);
            },
            None => {},
        }
    }
}

/// With no overrides the table is exactly the built-in one.
pub proof fn law_no_overrides_is_default()
    ensures
        spec_apply_overrides(spec_default_rows(), Seq::<(String, Vec<String>)>::empty()) == spec_default_rows(),
{
}

} // verus!
