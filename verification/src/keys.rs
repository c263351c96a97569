//! Key presses and the other events of the terminal, as plain values.

use vstd::prelude::*;

verus! {

/// The key that was pressed.
#[derive(Clone, Copy, Debug, PartialEq, Eq, Structural)]
pub enum KeyCode {
    Backspace,
    Enter,
    Left,
    Right,
    Up,
    Down,
    Delete,
    Esc,
    /// A key that gives a character.
    Char(char),
    /// Any other key.
    Other,
}

/// The modifier keys that were held down with a key.
#[derive(Clone, Copy, Debug, PartialEq, Eq, Structural)]
pub enum KeyModifiers {
    /// None at all.
    Plain,
    /// Control, and no other.
    Control,
    /// Any other set of them.
    Other,
}

/// One key press.
#[derive(Clone, Copy, Debug, PartialEq, Eq, Structural)]
pub struct KeyEvent {
    pub code: KeyCode,
    pub modifiers: KeyModifiers,
}

/// One event of the terminal.
#[derive(Clone, Copy, Debug, PartialEq, Eq, Structural)]
pub enum Event {
    Key(KeyEvent),
    /// The terminal changed its size.
    Resize,
    /// Anything else.
    Other,
}

/// Whether `code` gives the character `c`.
pub open spec fn gives(code: KeyCode, c: char) -> bool {
    code == KeyCode::Char(c)
}

/// The keys that move down: the arrow and `j`.
pub open spec fn moves_down(code: KeyCode) -> bool {
    code == KeyCode::Down || gives(code, 'j')
}

/// The keys that move up: the arrow and `k`.
pub open spec fn moves_up(code: KeyCode) -> bool {
    code == KeyCode::Up || gives(code, 'k')
}

/// The keys that move left: the arrow and `h`.
pub open spec fn moves_left(code: KeyCode) -> bool {
    code == KeyCode::Left || gives(code, 'h')
}

/// The keys that ask for a deletion: the delete key and `d`.
pub open spec fn asks_deletion(code: KeyCode) -> bool {
    code == KeyCode::Delete || gives(code, 'd')
}

/// The keys that answer yes.
pub open spec fn says_yes(code: KeyCode) -> bool {
    gives(code, 'y') || gives(code, 'Y')
}

/// The keys that answer no: `n`, and escape.
pub open spec fn says_no(code: KeyCode) -> bool {
    gives(code, 'n') || gives(code, 'N') || code == KeyCode::Esc
}

impl KeyCode {
    /// Whether this key gives the character `c`.
    pub fn is_char(&self, c: char) -> (yes: bool)
        ensures
            yes == gives(*self, c),
    {
        match self {
            KeyCode::Char(given) => *given == c,
            _ => false,
        }
    }

    /// Whether this key moves down.
    pub fn is_down(&self) -> (yes: bool)
        ensures
            yes == moves_down(*self),
    {
        matches!(self, KeyCode::Down) || self.is_char('j')
    }

    /// Whether this key moves up.
    pub fn is_up(&self) -> (yes: bool)
        ensures
            yes == moves_up(*self),
    {
        matches!(self, KeyCode::Up) || self.is_char('k')
    }

    /// Whether this key moves left.
    pub fn is_left(&self) -> (yes: bool)
        ensures
            yes == moves_left(*self),
    {
        matches!(self, KeyCode::Left) || self.is_char('h')
    }

    /// Whether this key asks for a deletion.
    pub fn is_deletion(&self) -> (yes: bool)
        ensures
            yes == asks_deletion(*self),
    {
        matches!(self, KeyCode::Delete) || self.is_char('d')
    }

    /// Whether this key answers yes.
    pub fn is_yes(&self) -> (yes: bool)
        ensures
            yes == says_yes(*self),
    {
        self.is_char('y') || self.is_char('Y')
    }

    /// Whether this key answers no.
    pub fn is_no(&self) -> (yes: bool)
        ensures
            yes == says_no(*self),
    {
        self.is_char('n') || self.is_char('N') || matches!(self, KeyCode::Esc)
    }
}

impl KeyEvent {
    /// The press of `code` with no modifier key.
    pub fn plain(code: KeyCode) -> (key: KeyEvent)
        ensures
            key == (KeyEvent { code, modifiers: KeyModifiers::Plain }),
    {
        KeyEvent { code, modifiers: KeyModifiers::Plain }
    }

    /// The press of `code` with the control key.
    pub fn control(code: KeyCode) -> (key: KeyEvent)
        ensures
            key == (KeyEvent { code, modifiers: KeyModifiers::Control }),
    {
        KeyEvent { code, modifiers: KeyModifiers::Control }
    }

    /// Whether the control key, and no other modifier key, was held down.
    pub fn with_control(&self) -> (yes: bool)
        ensures
            yes == (self.modifiers == KeyModifiers::Control),
    {
        matches!(self.modifiers, KeyModifiers::Control)
    }
}

} // verus!
