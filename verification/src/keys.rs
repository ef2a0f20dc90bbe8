//! Normalized keystrokes consumed by the state machine.
//!
//! The terminal event loop translates raw key events into this small
//! vocabulary; only press events reach the library.

use vstd::prelude::*;

verus! {

/// One normalized key press.
#[derive(Clone, Copy, Debug, PartialEq, Eq, Structural)]
pub enum Key {
    /// A printable character.
    Char(char),
    /// Confirm / enter.
    Enter,
    /// Delete the character before the cursor.
    Backspace,
    /// Cancel.
    Esc,
    /// Move the cursor one character left.
    Left,
    /// Move the cursor one character right.
    Right,
    /// Delete the character under the cursor.
    Delete,
    /// Move the cursor to the start of the line.
    Home,
    /// Move the cursor to the end of the line.
    End,
}

} // verus!
