//! Commands that edit the current buffer. Without a current buffer each of
//! them does nothing.
use vstd::prelude::*;
use crate::commands::cursor::line_end_of;
use crate::engine::{
    accepts, buffer_cursor, buffer_insert, buffer_start_operation_group, buffer_text,
    current_buffer, cursor_move_to, cursor_position, cursor_text, grouping, other_buffers,
    spliced, text_after_insert,
};
use crate::models::application::Application;
use crate::position::{Point, Position};

verus! {

/// Where the cursor stands after a line break was put in at `cursor`, in a
/// buffer that is now `buffer`: at the start of the next line, if the
/// buffer lets it go there, and at `cursor` still if not.
pub open spec fn cursor_after_newline(buffer: scribe::Buffer, cursor: Point) -> Point {
    let next = Point { line: cursor.line + 1, offset: 0 };
    if cursor.line < usize::MAX && accepts(buffer, next) {
        next
    } else {
        cursor
    }
}

/// Whether `after` is what the insertion of a line break makes of the
/// buffer `before`. The text is what the buffer makes of a line break put
/// in at the cursor. The cursor stands at the start of the next line, if
/// the buffer now lets it go there, and where it stood if not. A group of
/// edits that was open took the edit in and is open still. Of the place of
/// the line break this much is known without the buffer: the text is the
/// old one with a line break put in, or the old one where the buffer found
/// no place for it.
pub open spec fn broke_line(before: scribe::Buffer, after: scribe::Buffer) -> bool {
    &&& buffer_text(after) == text_after_insert(before, "\n"@)
    &&& buffer_text(after) == buffer_text(before) || spliced(
        buffer_text(before),
        "\n"@,
        buffer_text(after),
    )
    &&& buffer_cursor(after) == cursor_after_newline(after, buffer_cursor(before))
    &&& grouping(after) == grouping(before)
}

/// Whether `after` is what the opening of a line below the cursor's line
/// makes of the buffer `before`. There is a state `mid` of the buffer in
/// between: it holds the text of `before`, its cursor stands where the
/// move to the end of the line leaves it, and it gathers its edits into a
/// group. The line break is put into that state, so that the edit lies
/// within the group, which is open still in `after`.
pub open spec fn opened_line(before: scribe::Buffer, after: scribe::Buffer) -> bool {
    exists|mid: scribe::Buffer|
        {
            &&& buffer_text(mid) == buffer_text(before)
            &&& buffer_cursor(mid) == line_end_of(before)
            &&& #[trigger] grouping(mid)
            &&& broke_line(mid, after)
        }
}

/// Begins a group of edits that are undone together: from here on the
/// current buffer gathers its edits into one. Text and cursor stay as they
/// are, and so do the places that the cursor can go to and the other
/// buffers.
pub fn start_command_group(app: &mut Application)
    ensures
        final(app).same_but_workspace(old(app)),
        other_buffers(final(app).workspace) == other_buffers(old(app).workspace),
        match old(app).buffer() {
            Some(buffer) => {
                &&& final(app).buffer().is_some()
                &&& grouping(final(app).buffer().unwrap())
                &&& buffer_text(final(app).buffer().unwrap()) == buffer_text(buffer)
                &&& cursor_text(final(app).buffer().unwrap()) == cursor_text(buffer)
                &&& buffer_cursor(final(app).buffer().unwrap()) == buffer_cursor(buffer)
                &&& forall|p: Point|
                    accepts(final(app).buffer().unwrap(), p) == accepts(buffer, p)
            },
            None => final(app).workspace == old(app).workspace,
        },
{
    match current_buffer(&mut app.workspace) {
        Some(buffer) => buffer_start_operation_group(buffer),
        None => (),
    }
}

/// Puts a line break into the text at the cursor, and moves the cursor to
/// the start of the line that begins after it. The other buffers stay as
/// they are.
pub fn insert_newline(app: &mut Application)
    ensures
        final(app).same_but_workspace(old(app)),
        other_buffers(final(app).workspace) == other_buffers(old(app).workspace),
        match old(app).buffer() {
            Some(buffer) => final(app).buffer().is_some() && broke_line(
                buffer,
                final(app).buffer().unwrap(),
            ),
            None => final(app).workspace == old(app).workspace,
        },
{
    match current_buffer(&mut app.workspace) {
        Some(buffer) => {
            buffer_insert(buffer, "\n");
            let cursor = cursor_position(buffer);
            if cursor.line < usize::MAX {
                cursor_move_to(buffer, Position { line: cursor.line + 1, offset: 0 });
            }
        },
        None => (),
    }
}

} // verus!
