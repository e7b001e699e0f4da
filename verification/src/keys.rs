//! Key presses as the panels see them: a key code plus modifier flags.
use vstd::prelude::*;

verus! {

/// The key codes that the panels react to.
#[derive(Debug, Clone, Copy, PartialEq, Eq, Structural)]
pub enum KeyCode {
    Char(char),
    Enter,
    Esc,
    Backspace,
    Delete,
    Left,
    Right,
    Up,
    Down,
    Home,
    End,
    Tab,
    BackTab,
    Other,
}

/// A key press with its modifiers.
#[derive(Debug, Clone, Copy, PartialEq, Eq, Structural)]
pub struct KeyPress {
    pub code: KeyCode,
    pub ctrl: bool,
    pub shift: bool,
}

impl KeyPress {
    /// A key press without modifiers.
    pub fn plain(code: KeyCode) -> (r: KeyPress)
        ensures
            r == (KeyPress { code, ctrl: false, shift: false }),
    {
        KeyPress { code, ctrl: false, shift: false }
    }

    /// A key press with Ctrl held.
    pub fn with_ctrl(code: KeyCode) -> (r: KeyPress)
        ensures
            r == (KeyPress { code, ctrl: true, shift: false }),
    {
        KeyPress { code, ctrl: true, shift: false }
    }
}

} // verus!
