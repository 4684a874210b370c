//! The key events the core consumes: a logical key plus a control-modifier
//! flag, agnostic of the underlying terminal library.

use vstd::prelude::*;

verus! {

/// A logical key: a printable character or one of the named keys.
#[derive(Clone, Copy, Debug, PartialEq, Eq, Structural)]
pub enum Key {
    Char(char),
    Enter,
    Esc,
    Backspace,
    Left,
    Right,
}

/// One key-press event.
#[derive(Clone, Copy, Debug, PartialEq, Eq, Structural)]
pub struct KeyInput {
    pub key: Key,
    pub ctrl: bool,
}

impl KeyInput {
    /// A control-key combination on `lower` (case-insensitive).
    pub open spec fn is_ctrl(self, lower: char, upper: char) -> bool {
        self.ctrl && match self.key {
            Key::Char(c) => c == lower || c == upper,
            _ => false,
        }
    }

}

} // verus!
