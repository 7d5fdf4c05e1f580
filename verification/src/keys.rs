//! The keyboard as the views read it: a key, the modifiers held with it.

use vstd::prelude::*;

verus! {

/// One key of the keyboard. Every key that no view and no global binding
/// gives a meaning to is `Other`.
#[derive(Clone, Copy, Debug, PartialEq, Eq, Structural)]
pub enum Key {
    Char(char),
    Enter,
    Backspace,
    Esc,
    Left,
    Right,
    Up,
    Down,
    Tab,
    Other,
}

/// The modifier keys held while a key was pressed: none, shift alone, or any
/// other combination.
#[derive(Clone, Copy, Debug, PartialEq, Eq, Structural)]
pub enum Modifiers {
    Plain,
    Shift,
    Other,
}

/// A key event: the key and the modifiers that came with it.
#[derive(Clone, Copy, Debug, PartialEq, Eq, Structural)]
pub struct KeyPress {
    pub code: Key,
    pub modifiers: Modifiers,
}

impl KeyPress {
    /// A key pressed with no modifier held.
    pub fn plain(code: Key) -> (press: KeyPress)
        ensures
            press == (KeyPress { code, modifiers: Modifiers::Plain }),
    {
        KeyPress { code, modifiers: Modifiers::Plain }
    }

    /// A key pressed with shift held.
    pub fn shifted(code: Key) -> (press: KeyPress)
        ensures
            press == (KeyPress { code, modifiers: Modifiers::Shift }),
    {
        KeyPress { code, modifiers: Modifiers::Shift }
    }
}

} // verus!
