//! Plain key and dispatch types the widget logic decides on.

use vstd::prelude::*;

verus! {

/// A key code, reduced to the keys the widgets react to.
#[derive(Clone, Copy, Debug, PartialEq, Eq, Structural)]
pub enum KeyCode {
    Char(char),
    Up,
    Down,
    Left,
    Right,
    Enter,
    Esc,
    Backspace,
    Tab,
    Home,
    End,
    PageUp,
    PageDown,
    Other,
}

/// Modifier keys held with a key.
#[derive(Clone, Copy, Debug, PartialEq, Eq, Structural)]
pub struct KeyMod {
    pub alt: bool,
    pub ctrl: bool,
    pub shift: bool,
}

impl KeyMod {
    /// No modifier held.
    pub fn none() -> (m: KeyMod)
        ensures
            !m.alt && !m.ctrl && !m.shift,
    {
        KeyMod { alt: false, ctrl: false, shift: false }
    }
}

impl KeyMod {
    /// Alt alone.
    pub fn alt() -> (m: KeyMod)
        ensures
            m.alt && !m.ctrl && !m.shift,
    {
        KeyMod { alt: true, ctrl: false, shift: false }
    }

    /// Ctrl alone.
    pub fn ctrl() -> (m: KeyMod)
        ensures
            !m.alt && m.ctrl && !m.shift,
    {
        KeyMod { alt: false, ctrl: true, shift: false }
    }

    /// The same modifiers with Shift added.
    pub fn with_shift(self) -> (m: KeyMod)
        ensures
            m.alt == self.alt && m.ctrl == self.ctrl && m.shift,
    {
        KeyMod { alt: self.alt, ctrl: self.ctrl, shift: true }
    }

    /// The same modifiers with Alt added.
    pub fn with_alt(self) -> (m: KeyMod)
        ensures
            m.alt && m.ctrl == self.ctrl && m.shift == self.shift,
    {
        KeyMod { alt: true, ctrl: self.ctrl, shift: self.shift }
    }
}

/// A key press: code and modifiers.
#[derive(Clone, Copy, Debug, PartialEq, Eq, Structural)]
pub struct KeyEvent {
    pub code: KeyCode,
    pub modifiers: KeyMod,
}

impl KeyEvent {
    pub fn new(code: KeyCode, modifiers: KeyMod) -> (k: KeyEvent)
        ensures
            k.code == code,
            k.modifiers == modifiers,
    {
        KeyEvent { code, modifiers }
    }
}

/// Whether a widget used an event.
#[derive(Clone, Copy, Debug, PartialEq, Eq, Structural)]
pub enum HandleResult {
    Consumed,
    Ignored,
}

/// The decimal digit a character stands for, if any.
pub open spec fn spec_digit(c: char) -> Option<usize> {
    if '0' <= c && c <= '9' {
        Some((c as u32 - '0' as u32) as usize)
    } else {
        None
    }
}

/// Decimal value of a digit character (`char::to_digit(10)`).
pub fn char_digit(c: char) -> (d: Option<usize>)
    ensures
        d == spec_digit(c),
        d matches Some(n) ==> n < 10,
{
    if '0' <= c && c <= '9' {
        Some((c as u32 - '0' as u32) as usize)
    } else {
        None
    }
}

} // verus!
