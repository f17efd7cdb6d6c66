//! The key-event vocabulary the interpreter consumes: an abstract key code,
//! whether control is held, and whether the key went down or up. Only
//! key-down events ever produce actions.

use vstd::prelude::*;

verus! {

#[derive(Clone, Copy, Debug, PartialEq, Eq, Structural)]
pub enum KeyCode {
    Char(char),
    Up,
    Down,
    Left,
    Right,
    Enter,
    Backspace,
    Delete,
    Esc,
    Other,
}

#[derive(Clone, Copy, Debug, PartialEq, Eq, Structural)]
pub enum KeyEventKind {
    Press,
    Release,
}

#[derive(Clone, Copy, Debug, PartialEq, Eq, Structural)]
pub struct KeyEvent {
    pub code: KeyCode,
    pub ctrl: bool,
    pub kind: KeyEventKind,
}

impl KeyEvent {
    /// A plain key-down event without modifiers.
    pub fn press(code: KeyCode) -> (r: KeyEvent)
        ensures
            r == (KeyEvent { code, ctrl: false, kind: KeyEventKind::Press }),
    {
        KeyEvent { code, ctrl: false, kind: KeyEventKind::Press }
    }
}

} // verus!
