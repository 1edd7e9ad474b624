//! Commands that move the cursor of the current buffer. Without a current
//! buffer each of them does nothing.
use vstd::prelude::*;
use crate::commands::application::switch_to_insert_mode;
use crate::commands::buffer::{broke_line, insert_newline, start_command_group};
use crate::commands::{Command, buffer_effect, effect};
use crate::engine::{
    accepts, buffer_cursor, buffer_data, buffer_text, current_buffer, cursor_move_down,
    cursor_move_left, cursor_move_right, cursor_move_to, cursor_move_to_end_of_line,
    cursor_move_to_start_of_line, cursor_move_up, cursor_position, cursor_text, end_of_line,
    grouping, moved, moved_to_line, remembered_offset,
};
use crate::lexer::{lemma_lexed, lex, lexed};
use crate::line::{
    first_word_of_line, first_word_offset, is_blank_line, lemma_no_word_on_blank_line, line_of,
};
use crate::models::application::Application;
use crate::navigation::{
    end_of, lemma_next_lands_on_a_start, lemma_no_next_word, lemma_previous_at_origin,
    lemma_previous_inside_word, lemma_previous_lands_on_a_start, lemma_previous_then_next,
    lemma_starts_ordered, next_target, previous_target, start_of, start_of_next_token,
    start_of_previous_token,
};
use crate::position::{Point, Position};
use crate::token::{joined, views};

verus! {

/// Where the cursor of a buffer stands after the move one line up: on line
/// 0 where it stood, else on the line above, at the offset that the cursor
/// keeps in mind or at that line's end, as far as the buffer lets it go
/// there.
pub open spec fn up_of(buffer: scribe::Buffer) -> Point {
    let cursor = buffer_cursor(buffer);
    if cursor.line == 0 {
        cursor
    } else {
        moved_to_line(buffer, (cursor.line - 1) as nat, remembered_offset(buffer))
    }
}

/// Where the cursor of a buffer stands after the move one line down: on
/// the line below, at the offset that the cursor keeps in mind or at that
/// line's end, as far as the buffer lets it go there.
pub open spec fn down_of(buffer: scribe::Buffer) -> Point {
    let cursor = buffer_cursor(buffer);
    if cursor.line < usize::MAX {
        moved_to_line(buffer, cursor.line + 1, remembered_offset(buffer))
    } else {
        cursor
    }
}

/// Where the cursor of a buffer stands after a step to the left.
pub open spec fn left_of(buffer: scribe::Buffer) -> Point {
    let cursor = buffer_cursor(buffer);
    if cursor.offset == 0 {
        cursor
    } else {
        moved(buffer, Point { line: cursor.line, offset: (cursor.offset - 1) as nat })
    }
}

/// Where the cursor of a buffer stands after a step to the right.
pub open spec fn right_of(buffer: scribe::Buffer) -> Point {
    let cursor = buffer_cursor(buffer);
    if cursor.offset < usize::MAX {
        moved(buffer, Point { line: cursor.line, offset: cursor.offset + 1 })
    } else {
        cursor
    }
}

/// Where the cursor of a buffer stands after the move to the start of its
/// line.
pub open spec fn line_start_of(buffer: scribe::Buffer) -> Point {
    moved(buffer, Point { line: buffer_cursor(buffer).line, offset: 0 })
}

/// Where the cursor of a buffer stands after the move to the end of its
/// line.
pub open spec fn line_end_of(buffer: scribe::Buffer) -> Point {
    let cursor = buffer_cursor(buffer);
    match end_of_line(cursor_text(buffer), cursor.line) {
        Some(length) => moved(buffer, Point { line: cursor.line, offset: length }),
        None => cursor,
    }
}

/// Where the cursor of a buffer stands after the move to the first word of
/// its line: at the first character of the line that is not white space, if
/// the line has one and the buffer lets the cursor go there.
pub open spec fn first_word_target(buffer: scribe::Buffer) -> Point {
    let cursor = buffer_cursor(buffer);
    match first_word_of_line(buffer_text(buffer), cursor.line) {
        Some(offset) => moved(buffer, Point { line: cursor.line, offset: offset as nat }),
        None => cursor,
    }
}

/// Where the cursor of a buffer stands after the move to the start of the
/// previous token, the tokens being those that the lexer cuts the buffer's
/// text into.
pub open spec fn previous_token_target(buffer: scribe::Buffer) -> Point {
    moved(buffer, previous_target(lexed(buffer_text(buffer)), buffer_cursor(buffer)))
}

/// Where the cursor of a buffer stands after the move to the start of the
/// next token.
pub open spec fn next_token_target(buffer: scribe::Buffer) -> Point {
    match next_target(lexed(buffer_text(buffer)), buffer_cursor(buffer)) {
        Some(target) => moved(buffer, target),
        None => buffer_cursor(buffer),
    }
}

/// On a line of white space only, and on a line that the text does not
/// have, the move to the first word leaves the cursor where it stands.
pub proof fn lemma_first_word_of_blank_line(buffer: scribe::Buffer)
    requires
        is_blank_line(buffer_text(buffer), buffer_cursor(buffer).line) || line_of(
            buffer_text(buffer),
            buffer_cursor(buffer).line,
        ).is_none(),
    ensures
        first_word_target(buffer) == buffer_cursor(buffer),
{
    lemma_no_word_on_blank_line(buffer_text(buffer), buffer_cursor(buffer).line);
}

/// At the start of the text the move to the start of the previous token
/// leaves the cursor where it stands, whatever the text holds.
pub proof fn lemma_previous_token_at_origin(buffer: scribe::Buffer)
    requires
        buffer_cursor(buffer) == Point::origin(),
    ensures
        previous_token_target(buffer) == Point::origin(),
{
    lemma_previous_at_origin(lexed(buffer_text(buffer)));
}

/// From a cursor inside a token that is not whitespace, or at its end, the
/// move to the start of the previous token brings the cursor to the start
/// of that token, if the buffer lets it go there, and leaves it where it
/// is if not.
pub proof fn lemma_previous_token_inside_word(buffer: scribe::Buffer, k: int)
    requires
        0 <= k < lexed(buffer_text(buffer)).len(),
        !lexed(buffer_text(buffer))[k].whitespace,
        start_of(lexed(buffer_text(buffer)), k).lt(buffer_cursor(buffer)),
        buffer_cursor(buffer).le(end_of(lexed(buffer_text(buffer)), k)),
    ensures
        previous_token_target(buffer) == moved(buffer, start_of(lexed(buffer_text(buffer)), k)),
{
    lemma_previous_inside_word(lexed(buffer_text(buffer)), buffer_cursor(buffer), k);
}

/// The move to the start of the previous token never brings the cursor to
/// the inside of a token: the cursor stays where it is, or it stands at the
/// start of the text or of a token that is not whitespace.
pub proof fn lemma_previous_token_lands_on_a_start(buffer: scribe::Buffer)
    ensures
        previous_token_target(buffer) == buffer_cursor(buffer) || previous_token_target(buffer)
            == Point::origin() || exists|i: int|
            0 <= i < lexed(buffer_text(buffer)).len() && !(#[trigger] lexed(
                buffer_text(buffer),
            )[i]).whitespace && start_of(lexed(buffer_text(buffer)), i) == previous_token_target(
                buffer,
            ),
{
    lemma_previous_lands_on_a_start(lexed(buffer_text(buffer)), buffer_cursor(buffer));
}

/// The move to the start of the next token never brings the cursor to the
/// inside of a token: the cursor stays where it is, or it stands at the
/// start of a token that is not whitespace.
pub proof fn lemma_next_token_lands_on_a_start(buffer: scribe::Buffer)
    ensures
        next_token_target(buffer) == buffer_cursor(buffer) || exists|i: int|
            0 <= i < lexed(buffer_text(buffer)).len() && !(#[trigger] lexed(
                buffer_text(buffer),
            )[i]).whitespace && start_of(lexed(buffer_text(buffer)), i) == next_token_target(
                buffer,
            ),
{
    lemma_next_lands_on_a_start(lexed(buffer_text(buffer)), buffer_cursor(buffer));
}

/// From a cursor strictly inside a token that is not whitespace and that
/// only whitespace follows, the move to the start of the previous token
/// and then the move to the start of the next token leave the cursor at
/// the start of that token, if the buffer lets it go there, and where it
/// began if not. Here `first` is the buffer before the two moves, `second`
/// the buffer between them, and `third` the buffer after them.
pub proof fn lemma_previous_then_next_token(
    first: scribe::Buffer,
    second: scribe::Buffer,
    third: scribe::Buffer,
    k: int,
)
    requires
        buffer_effect(Command::MoveToStartOfPreviousToken, first, second),
        buffer_effect(Command::MoveToStartOfNextToken, second, third),
        0 <= k < lexed(buffer_text(first)).len(),
        !lexed(buffer_text(first))[k].whitespace,
        start_of(lexed(buffer_text(first)), k).lt(buffer_cursor(first)),
        buffer_cursor(first).lt(end_of(lexed(buffer_text(first)), k)),
        forall|m: int|
            k < m < lexed(buffer_text(first)).len() ==> (#[trigger] lexed(
                buffer_text(first),
            )[m]).whitespace,
    ensures
        buffer_cursor(third) == moved(first, start_of(lexed(buffer_text(first)), k)),
{
    let tokens = lexed(buffer_text(first));
    let began = buffer_cursor(first);
    let start = start_of(tokens, k);
    lemma_previous_inside_word(tokens, began, k);
    lemma_previous_then_next(tokens, began, k);
    if !accepts(first, start) {
        assert forall|m: int| 0 <= m < tokens.len() implies (#[trigger] tokens[m]).whitespace
            || !began.lt(start_of(tokens, m)) by {
            if m <= k {
                lemma_starts_ordered(tokens, m, k);
            }
        }
        lemma_no_next_word(tokens, began, 0);
    }
}

/// Moves the cursor one line up, if there is a line above: to the offset
/// that the cursor keeps in mind, or to the end of that line where it is
/// shorter.
pub fn move_up(app: &mut Application)
    ensures
        effect(Command::MoveUp, *old(app), *final(app)),
        final(app).error == old(app).error,
{
    match current_buffer(&mut app.workspace) {
        Some(buffer) => cursor_move_up(buffer),
        None => (),
    }
}

/// Moves the cursor one line down, if there is a line below: to the
/// offset that the cursor keeps in mind, or to the end of that line where
/// it is shorter.
pub fn move_down(app: &mut Application)
    ensures
        effect(Command::MoveDown, *old(app), *final(app)),
        final(app).error == old(app).error,
{
    match current_buffer(&mut app.workspace) {
        Some(buffer) => {
            if cursor_position(buffer).line < usize::MAX {
                cursor_move_down(buffer)
            }
        },
        None => (),
    }
}

/// Moves the cursor one offset to the left, unless it stands at the start
/// of its line.
pub fn move_left(app: &mut Application)
    ensures
        effect(Command::MoveLeft, *old(app), *final(app)),
        final(app).error == old(app).error,
{
    match current_buffer(&mut app.workspace) {
        Some(buffer) => cursor_move_left(buffer),
        None => (),
    }
}

/// Moves the cursor one offset to the right, if the line goes on there.
pub fn move_right(app: &mut Application)
    ensures
        effect(Command::MoveRight, *old(app), *final(app)),
        final(app).error == old(app).error,
{
    match current_buffer(&mut app.workspace) {
        Some(buffer) => {
            if cursor_position(buffer).offset < usize::MAX {
                cursor_move_right(buffer)
            }
        },
        None => (),
    }
}

/// Moves the cursor to the start of its line.
pub fn move_to_start_of_line(app: &mut Application)
    ensures
        effect(Command::MoveToStartOfLine, *old(app), *final(app)),
        final(app).error == old(app).error,
{
    match current_buffer(&mut app.workspace) {
        Some(buffer) => cursor_move_to_start_of_line(buffer),
        None => (),
    }
}

/// Moves the cursor to the first character of its line that is not white
/// space. On a line of white space only, and on a line that the text does
/// not have, the cursor stays.
pub fn move_to_first_word_of_line(app: &mut Application)
    ensures
        effect(Command::MoveToFirstWordOfLine, *old(app), *final(app)),
        final(app).error == old(app).error,
{
    match current_buffer(&mut app.workspace) {
        Some(buffer) => {
            let text = buffer_data(buffer);
            let cursor = cursor_position(buffer);
            match first_word_offset(text.as_str(), cursor.line) {
                Some(offset) => {
                    cursor_move_to(buffer, Position { line: cursor.line, offset });
                },
                None => (),
            }
        },
        None => (),
    }
}

/// Moves the cursor to the end of its line.
pub fn move_to_end_of_line(app: &mut Application)
    ensures
        effect(Command::MoveToEndOfLine, *old(app), *final(app)),
        final(app).error == old(app).error,
{
    match current_buffer(&mut app.workspace) {
        Some(buffer) => cursor_move_to_end_of_line(buffer),
        None => (),
    }
}

/// Moves the cursor to the start of the previous token that is not
/// whitespace, and to the start of the text where none comes before.
pub fn move_to_start_of_previous_token(app: &mut Application)
    ensures
        effect(Command::MoveToStartOfPreviousToken, *old(app), *final(app)),
        final(app).error == old(app).error,
{
    match current_buffer(&mut app.workspace) {
        Some(buffer) => {
            let text = buffer_data(buffer);
            let tokens = lex(text.as_str());
            // The tokens make up the text, whose length bounds every
            // position that the scan passes.
            let length = text.as_str().unicode_len();
            proof {
                lemma_lexed(text@);
            }
            assert(joined(views(tokens@)).len() == length);
            let cursor = cursor_position(buffer);
            let target = start_of_previous_token(&tokens, cursor);
            cursor_move_to(buffer, target);
        },
        None => (),
    }
}

/// Moves the cursor to the start of the next token that is not whitespace.
/// Where none follows, the cursor stays.
pub fn move_to_start_of_next_token(app: &mut Application)
    ensures
        effect(Command::MoveToStartOfNextToken, *old(app), *final(app)),
        final(app).error == old(app).error,
{
    match current_buffer(&mut app.workspace) {
        Some(buffer) => {
            let text = buffer_data(buffer);
            let tokens = lex(text.as_str());
            // The tokens make up the text, whose length bounds every
            // position that the scan passes.
            let length = text.as_str().unicode_len();
            proof {
                lemma_lexed(text@);
            }
            assert(joined(views(tokens@)).len() == length);
            let cursor = cursor_position(buffer);
            match start_of_next_token(&tokens, cursor) {
                Some(target) => {
                    cursor_move_to(buffer, target);
                },
                None => (),
            }
        },
        None => (),
    }
}

/// Moves the cursor to the end of its line and enters insert mode.
pub fn insert_at_end_of_line(app: &mut Application)
    ensures
        effect(Command::InsertAtEndOfLine, *old(app), *final(app)),
        final(app).error == old(app).error,
{
    move_to_end_of_line(app);
    switch_to_insert_mode(app);
}

/// Moves the cursor to the first word of its line and enters insert mode.
pub fn insert_at_first_word_of_line(app: &mut Application)
    ensures
        effect(Command::InsertAtFirstWordOfLine, *old(app), *final(app)),
        final(app).error == old(app).error,
{
    move_to_first_word_of_line(app);
    switch_to_insert_mode(app);
}

/// Opens a line below the cursor's line and enters insert mode: the cursor
/// goes to the end of its line, and a line break is put in there, as the
/// first edit of a group that is undone together.
pub fn insert_with_newline(app: &mut Application)
    ensures
        effect(Command::InsertWithNewline, *old(app), *final(app)),
        final(app).error == old(app).error,
{
    move_to_end_of_line(app);
    start_command_group(app);
    let ghost mid = app.buffer();
    insert_newline(app);
    switch_to_insert_mode(app);
    proof {
        if old(app).buffer().is_some() {
            assert(grouping(mid.unwrap()));
            assert(broke_line(mid.unwrap(), app.buffer().unwrap()));
        }
    }
}

} // verus!
