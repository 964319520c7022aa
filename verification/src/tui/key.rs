//! Keyboard input as the screens see it.

use vstd::prelude::*;

verus! {

/// One key press. Plain characters, characters with the Alt modifier, and
/// characters with Shift and Alt are told apart; every other key the
/// terminal can report that the screens do not use maps to `Other`.
#[derive(Debug, Clone, Copy, PartialEq, Eq, Structural)]
pub enum Key {
    Char(char),
    AltChar(char),
    ShiftAltChar(char),
    Up,
    Down,
    Left,
    Right,
    Enter,
    Esc,
    Tab,
    BackTab,
    Backspace,
    Home,
    End,
    Other,
}

} // verus!
