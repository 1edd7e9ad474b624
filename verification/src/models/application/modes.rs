//! The states that the editing modes carry.
use vstd::prelude::*;
use crate::commands::Command;
use crate::position::Position;

verus! {

/// The state of the mode that asks for confirmation: the command that
/// waits for it.
#[derive(Debug)]
pub struct ConfirmState {
    pub command: Command,
}

/// The state of a mode that searches a list and selects from it: what has
/// been typed, and whether the mode is taking text or moving through the
/// results.
#[derive(Debug)]
pub struct SearchSelectState {
    pub input: String,
    pub insert: bool,
}

impl SearchSelectState {
    /// Whether the mode is taking text.
    pub fn insert_mode(&self) -> (b: bool)
        ensures
            b == self.insert,
    {
        self.insert
    }
}

/// The state of the jump mode: the tag typed so far.
#[derive(Debug)]
pub struct JumpState {
    pub input: String,
}

/// The state of the line jump mode: the line number typed so far.
#[derive(Debug)]
pub struct LineJumpState {
    pub input: String,
}

/// The state of a selecting mode: where the selection began.
#[derive(Debug)]
pub struct SelectState {
    pub anchor: Position,
}

/// The state of the mode that takes a search query: the query so far.
#[derive(Debug)]
pub struct SearchInsertState {
    pub input: String,
}

} // verus!
