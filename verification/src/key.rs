//! The keys that the widgets and the application tell apart.

use vstd::prelude::*;

verus! {

/// A key, as far as anything here depends on it.
#[derive(Debug, Clone, Copy, PartialEq, Eq, Structural)]
pub enum Key {
    Char(char),
    Backspace,
    Enter,
    Left,
    Right,
    Up,
    Down,
    Tab,
    BackTab,
    Esc,
    /// Any other key.
    Other,
}

/// A key press with the state of the control key.
#[derive(Debug, Clone, Copy, PartialEq, Eq, Structural)]
pub struct KeyPress {
    pub key: Key,
    pub control: bool,
}

} // verus!
