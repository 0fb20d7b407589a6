//! The terminal UI's decision logic: menu dispatch, input editing, and
//! the application state machine. The terminal itself — drawing,
//! polling, network calls — lives with the caller, which feeds key
//! presses in and carries submitted inputs out.

use vstd::prelude::*;

pub mod app;
pub mod menu;
pub mod screens;

verus! {

/// A key press, reduced to what the UI reacts to.
#[derive(Debug, Clone, Copy, PartialEq, Eq, Structural)]
pub enum Key {
    /// A printable character.
    Char(char),
    Enter,
    Backspace,
    Esc,
    /// Any other key, which every screen ignores.
    Other,
}

} // verus!
