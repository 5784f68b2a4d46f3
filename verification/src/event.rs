//! Key presses as the prompts read them.

use vstd::prelude::*;

verus! {

/// The key of a key press. Keys that no prompt reacts to are all `Other`.
#[derive(Debug, Clone, Copy, PartialEq, Eq)]
pub enum KeyCode {
    Backspace,
    Enter,
    Left,
    Right,
    Up,
    Down,
    Home,
    End,
    Esc,
    Char(char),
    Other,
}

/// The modifier keys held down during a key press. `other` stands for any
/// modifier besides shift, control and alt.
#[derive(Debug, Clone, Copy, PartialEq, Eq)]
pub struct KeyModifiers {
    pub shift: bool,
    pub control: bool,
    pub alt: bool,
    pub other: bool,
}

impl KeyModifiers {
    /// No modifier is held.
    pub open spec fn is_none(self) -> bool {
        !self.shift && !self.control && !self.alt && !self.other
    }

    /// Control is held and nothing else.
    pub open spec fn is_control(self) -> bool {
        !self.shift && self.control && !self.alt && !self.other
    }

    /// The empty set of modifiers.
    pub fn none() -> (m: KeyModifiers)
        ensures
            m.is_none(),
    {
        KeyModifiers { shift: false, control: false, alt: false, other: false }
    }

    /// Control alone.
    pub fn control() -> (m: KeyModifiers)
        ensures
            m.is_control(),
    {
        KeyModifiers { shift: false, control: true, alt: false, other: false }
    }

    /// Whether no modifier is held.
    pub fn is_empty(&self) -> (b: bool)
        ensures
            b == self.is_none(),
    {
        !self.shift && !self.control && !self.alt && !self.other
    }

    /// Whether control is held and nothing else.
    pub fn is_control_only(&self) -> (b: bool)
        ensures
            b == self.is_control(),
    {
        !self.shift && self.control && !self.alt && !self.other
    }
}

/// One key press: a key and the modifiers held with it.
#[derive(Debug, Clone, Copy, PartialEq, Eq)]
pub struct KeyEvent {
    pub code: KeyCode,
    pub modifiers: KeyModifiers,
}

impl KeyEvent {
    /// A key pressed with no modifier.
    pub fn plain(code: KeyCode) -> (e: KeyEvent)
        ensures
            e.code == code,
            e.modifiers.is_none(),
    {
        KeyEvent { code, modifiers: KeyModifiers::none() }
    }

    /// A key pressed with control alone.
    pub fn ctrl(code: KeyCode) -> (e: KeyEvent)
        ensures
            e.code == code,
            e.modifiers.is_control(),
    {
        KeyEvent { code, modifiers: KeyModifiers::control() }
    }

    /// The key of an unmodified press; `None` when any modifier is held.
    pub open spec fn plain_code(self) -> Option<KeyCode> {
        if self.modifiers.is_none() {
            Some(self.code)
        } else {
            None
        }
    }
}

/// What the terminal reports to a running prompt.
#[derive(Debug, Clone, Copy, PartialEq, Eq)]
pub enum Event {
    /// A key was pressed.
    Key(KeyEvent),
    /// The terminal has now so many columns and rows.
    Resize(u16, u16),
    /// Anything else, which no prompt reacts to.
    Other,
}

} // verus!
