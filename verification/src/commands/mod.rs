//! The commands that keys are bound to.
pub mod application;
pub mod buffer;
pub mod cursor;

use vstd::prelude::*;
use crate::commands::buffer::opened_line;
use crate::commands::cursor::{
    down_of, first_word_target, left_of, line_end_of, line_start_of, next_token_target,
    previous_token_target, right_of, up_of,
};
use crate::engine::{buffer_cursor, other_buffers, only_cursor_differs};
use crate::models::application::{Application, Mode};
use crate::position::Point;

verus! {

/// What a key can be bound to: the motions and mode switches of this
/// library, and commands that the host program carries out itself, known
/// here by a number only.
#[derive(Clone, Copy, Debug, PartialEq, Eq, Structural)]
pub enum Command {
    MoveUp,
    MoveDown,
    MoveLeft,
    MoveRight,
    MoveToStartOfLine,
    MoveToFirstWordOfLine,
    MoveToEndOfLine,
    MoveToStartOfPreviousToken,
    MoveToStartOfNextToken,
    InsertAtEndOfLine,
    InsertAtFirstWordOfLine,
    InsertWithNewline,
    SwitchToNormalMode,
    SwitchToInsertMode,
    Exit,
    Host(u32),
}

/// The mode in which a command leaves the application.
pub open spec fn mode_after(command: Command, mode: Mode) -> Mode {
    match command {
        Command::InsertAtEndOfLine => Mode::Insert,
        Command::InsertAtFirstWordOfLine => Mode::Insert,
        Command::InsertWithNewline => Mode::Insert,
        Command::SwitchToInsertMode => Mode::Insert,
        Command::SwitchToNormalMode => Mode::Normal,
        Command::Exit => Mode::Exit,
        _ => mode,
    }
}

/// Where a command that only moves the cursor, if it does that much,
/// leaves the cursor of a buffer. It is one place for each command: which,
/// is for the buffer to say, which lets its cursor go there or not.
pub open spec fn landing(command: Command, buffer: scribe::Buffer) -> Point {
    match command {
        Command::MoveUp => up_of(buffer),
        Command::MoveDown => down_of(buffer),
        Command::MoveLeft => left_of(buffer),
        Command::MoveRight => right_of(buffer),
        Command::MoveToStartOfLine => line_start_of(buffer),
        Command::MoveToFirstWordOfLine => first_word_target(buffer),
        Command::MoveToEndOfLine => line_end_of(buffer),
        Command::MoveToStartOfPreviousToken => previous_token_target(buffer),
        Command::MoveToStartOfNextToken => next_token_target(buffer),
        Command::InsertAtEndOfLine => line_end_of(buffer),
        Command::InsertAtFirstWordOfLine => first_word_target(buffer),
        _ => buffer_cursor(buffer),
    }
}

/// Whether `after` is what a command makes of the buffer `before`. The one
/// command that edits opens a line. All others leave the text, the places
/// that the buffer lets its cursor go to, and the open group of edits, if
/// there is one, as they are, and the cursor where `landing` says.
pub open spec fn buffer_effect(command: Command, before: scribe::Buffer, after: scribe::Buffer) -> bool {
    match command {
        Command::InsertWithNewline => opened_line(before, after),
        _ => only_cursor_differs(before, after) && buffer_cursor(after) == landing(command, before),
    }
}

/// Whether a command works on the current buffer. The others leave the
/// whole workspace as it is.
pub open spec fn touches_buffer(command: Command) -> bool {
    match command {
        Command::SwitchToNormalMode => false,
        Command::SwitchToInsertMode => false,
        Command::Exit => false,
        Command::Host(_) => false,
        _ => true,
    }
}

/// Whether `after` is what a command makes of `before`, the recorded error
/// aside: the mode is as `mode_after` says and the current buffer as
/// `buffer_effect` says, and the search query, the key map and the other
/// buffers of the workspace are untouched. Without a current buffer the
/// workspace stays as it is.
pub open spec fn effect(command: Command, before: Application, after: Application) -> bool {
    &&& after.mode == mode_after(command, before.mode)
    &&& after.search_query == before.search_query
    &&& after.key_map == before.key_map
    &&& other_buffers(after.workspace) == other_buffers(before.workspace)
    &&& !touches_buffer(command) ==> after.workspace == before.workspace
    &&& match before.buffer() {
        Some(buffer) => after.buffer().is_some() && buffer_effect(
            command,
            buffer,
            after.buffer().unwrap(),
        ),
        None => after.workspace == before.workspace,
    }
}

/// Carries out a command of this library. A command of the host program is
/// not carried out here, and leaves everything as it is.
pub fn execute(app: &mut Application, command: Command)
    ensures
        effect(command, *old(app), *final(app)),
        final(app).error == old(app).error,
{
    match command {
        Command::MoveUp => cursor::move_up(app),
        Command::MoveDown => cursor::move_down(app),
        Command::MoveLeft => cursor::move_left(app),
        Command::MoveRight => cursor::move_right(app),
        Command::MoveToStartOfLine => cursor::move_to_start_of_line(app),
        Command::MoveToFirstWordOfLine => cursor::move_to_first_word_of_line(app),
        Command::MoveToEndOfLine => cursor::move_to_end_of_line(app),
        Command::MoveToStartOfPreviousToken => cursor::move_to_start_of_previous_token(app),
        Command::MoveToStartOfNextToken => cursor::move_to_start_of_next_token(app),
        Command::InsertAtEndOfLine => cursor::insert_at_end_of_line(app),
        Command::InsertAtFirstWordOfLine => cursor::insert_at_first_word_of_line(app),
        Command::InsertWithNewline => cursor::insert_with_newline(app),
        Command::SwitchToNormalMode => application::switch_to_normal_mode(app),
        Command::SwitchToInsertMode => application::switch_to_insert_mode(app),
        Command::Exit => application::exit(app),
        Command::Host(_) => (),
    }
}

} // verus!
