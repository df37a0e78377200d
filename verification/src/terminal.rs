//! The editor's view of the terminal: its text area and its keys.
//!
//! Talking to a real terminal (raw mode, escape sequences, reading bytes)
//! is not this crate's business; callers query the terminal once and hand
//! the editor a `Size`, and decode each keystroke into a `Key`.

use vstd::prelude::*;

use crate::position::Position;

verus! {

/// The width and height of the terminal's text area, in cells.
#[derive(Clone, Copy, PartialEq, Eq, Structural, Debug)]
pub struct Size {
    pub width: u16,
    pub height: u16,
}

impl Size {
    /// Whether a position lies inside the area.
    pub fn is_in(&self, p: &Position) -> (r: bool)
        ensures
            r == (p.x < self.width && p.y < self.height),
    {
        p.x < self.width as usize && p.y < self.height as usize
    }
}

/// One decoded keystroke, as the dispatch table understands it.
#[derive(Clone, Copy, PartialEq, Eq, Structural, Debug)]
pub enum Key {
    /// A printable character, or a line break.
    Char(char),
    /// A character pressed together with Control.
    Ctrl(char),
    Up,
    Down,
    Left,
    Right,
    PageUp,
    PageDown,
    Home,
    End,
    Backspace,
    Delete,
    Esc,
    /// Any key the editor does not react to.
    Other,
}

} // verus!
