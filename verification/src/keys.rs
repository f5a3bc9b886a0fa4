//! Terminal key vocabulary: the key codes and modifier sets that key
//! bindings are written in. Mirrors the terminal backend's own
//! vocabulary so events convert one for one at the edge.
use vstd::prelude::*;

verus! {

/// A key on the keyboard. `Media` and `Modifier` stand for the whole
/// families of media keys and lone modifier presses.
#[derive(Debug, Clone, Copy, PartialEq, Eq, Hash, Structural)]
pub enum KeyCode {
    Backspace,
    Enter,
    Left,
    Right,
    Up,
    Down,
    Home,
    End,
    PageUp,
    PageDown,
    Tab,
    BackTab,
    Delete,
    Insert,
    F(u8),
    Char(char),
    Null,
    Esc,
    CapsLock,
    ScrollLock,
    NumLock,
    PrintScreen,
    Pause,
    Menu,
    KeypadBegin,
    Media,
    Modifier,
}

/// A set of held modifier keys, one bit per modifier.
#[derive(Debug, Clone, Copy, PartialEq, Eq, Hash, Structural)]
pub struct KeyModifiers {
    pub bits: u8,
}

impl KeyModifiers {
    /// The set holding no modifier.
    pub fn none() -> (r: KeyModifiers)
        ensures
            r.bits == 0,
    {
        KeyModifiers { bits: 0 }
    }

    /// The set holding only this modifier.
    pub fn shift() -> (r: KeyModifiers)
        ensures
            r.bits == 1,
    {
        KeyModifiers { bits: 1 }
    }

    /// The set holding only this modifier.
    pub fn control() -> (r: KeyModifiers)
        ensures
            r.bits == 2,
    {
        KeyModifiers { bits: 2 }
    }

    /// The set holding only this modifier.
    pub fn alt() -> (r: KeyModifiers)
        ensures
            r.bits == 4,
    {
        KeyModifiers { bits: 4 }
    }

    /// The set holding only this modifier.
    pub fn super_key() -> (r: KeyModifiers)
        ensures
            r.bits == 8,
    {
        KeyModifiers { bits: 8 }
    }

    /// The set holding only this modifier.
    pub fn hyper() -> (r: KeyModifiers)
        ensures
            r.bits == 16,
    {
        KeyModifiers { bits: 16 }
    }

    /// The set holding only this modifier.
    pub fn meta() -> (r: KeyModifiers)
        ensures
            r.bits == 32,
    {
        KeyModifiers { bits: 32 }
    }

    /// Every bit of `other` is set in `self`.
    pub open spec fn has(self, other: KeyModifiers) -> bool {
        self.bits & other.bits == other.bits
    }

    /// `self` with the shift bit cleared.
    pub open spec fn spec_without_shift(self) -> KeyModifiers {
        KeyModifiers { bits: self.bits & 0xfe }
    }

    /// `true` iff every modifier of `other` is held in `self`.
    pub fn contains(&self, other: KeyModifiers) -> (r: bool)
        ensures
            r == self.has(other),
    {
        self.bits & other.bits == other.bits
    }

    /// The same set without shift: shift is folded into the
    /// character itself, so lookups ignore it.
    pub fn without_shift(&self) -> (r: KeyModifiers)
        ensures
            r == self.spec_without_shift(),
    {
        KeyModifiers { bits: self.bits & 0xfe }
    }
}

/// `true` iff `a` and `b` name the same key.
pub fn key_code_eq(a: &KeyCode, b: &KeyCode) -> (r: bool)
    ensures
        r == (*a == *b),
{
    *a == *b
}

} // verus!
