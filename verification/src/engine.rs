//! The buffer engine: scribe's workspace, buffer and cursor, as far as the
//! commands use them. Nothing in this file is proved; each contract says
//! what scribe's source shows of the call that the body makes.
use vstd::prelude::*;
use crate::position::{Point, Position};

verus! {

/// scribe's buffer: a text with a cursor and a history of edits. Nothing of
/// its inside is known here; the names below say what the contracts speak
/// of.
#[verifier::external_type_specification]
#[verifier::external_body]
pub struct ExBuffer(scribe::Buffer);

/// scribe's workspace: a set of open buffers, one of them current.
#[verifier::external_type_specification]
#[verifier::external_body]
pub struct ExWorkspace(scribe::Workspace);

/// The characters that a buffer holds: what `Buffer::data` reads.
pub uninterp spec fn buffer_text(buffer: scribe::Buffer) -> Seq<char>;

/// The characters that a buffer's cursor sees: scribe's cursor reads the
/// text through a handle of its own, the field `Cursor::data`. In a buffer
/// as scribe makes it that is the buffer's text; in one whose cursor was
/// put in by hand it may be another.
pub uninterp spec fn cursor_text(buffer: scribe::Buffer) -> Seq<char>;

/// Where a buffer's cursor stands.
pub uninterp spec fn buffer_cursor(buffer: scribe::Buffer) -> Point;

/// The current buffer of a workspace; `None` where it has none.
pub uninterp spec fn workspace_current(workspace: scribe::Workspace) -> Option<scribe::Buffer>;

/// The buffers that a workspace keeps besides the current one: scribe's
/// private list `buffers`, in which an empty buffer holds the place of the
/// one that is current.
pub uninterp spec fn other_buffers(workspace: scribe::Workspace) -> Seq<scribe::Buffer>;

/// Whether a buffer lets its cursor go to a point, as `GapBuffer::in_bounds`
/// tells it of the data that the cursor reads: whether the data has that
/// line and, on it, that offset, by scribe's counting.
pub uninterp spec fn accepts(buffer: scribe::Buffer, p: Point) -> bool;

/// The length of a line of a text by scribe's counting: the offset to which
/// `Cursor::move_to_end_of_line` sets out, and to which the moves up and
/// down fall back, which find it in the same way. `None` where the text has
/// no such line.
pub uninterp spec fn end_of_line(text: Seq<char>, line: nat) -> Option<nat>;

/// The offset that a buffer's cursor keeps in mind from its last move to a
/// place, and tries first on the line above or below: scribe's
/// `sticky_offset`.
pub uninterp spec fn remembered_offset(buffer: scribe::Buffer) -> nat;

/// Whether a buffer is gathering its edits into a group that is undone as
/// one: whether `Buffer::start_operation_group` was called and the group
/// not ended since.
pub uninterp spec fn grouping(buffer: scribe::Buffer) -> bool;

/// The text that `Buffer::insert` leaves in a buffer when given `data`.
pub uninterp spec fn text_after_insert(buffer: scribe::Buffer, data: Seq<char>) -> Seq<char>;

/// Whether two states of a buffer differ in the cursor at most: the text is
/// the same, and so is the text that the cursor sees; the buffer lets its
/// cursor go to the same points, and it gathers its edits into a group in
/// the one as in the other.
pub open spec fn only_cursor_differs(before: scribe::Buffer, after: scribe::Buffer) -> bool {
    &&& buffer_text(after) == buffer_text(before)
    &&& cursor_text(after) == cursor_text(before)
    &&& forall|p: Point| accepts(after, p) == accepts(before, p)
    &&& grouping(after) == grouping(before)
}

/// Where a buffer's cursor stands after an attempt to move it to `target`:
/// there if the buffer lets it go there, and where it stood if not.
pub open spec fn moved(buffer: scribe::Buffer, target: Point) -> Point {
    if accepts(buffer, target) {
        target
    } else {
        buffer_cursor(buffer)
    }
}

/// Where a buffer's cursor stands after an attempt to move it to another
/// line, as `Cursor::move_up` and `Cursor::move_down` make it: at the
/// offset `wanted`, if the buffer lets it go there; else at the end of that
/// line of the text that the cursor sees, if the buffer lets it go there;
/// else where it stood.
pub open spec fn moved_to_line(buffer: scribe::Buffer, line: nat, wanted: nat) -> Point {
    let wanted = Point { line: line, offset: wanted };
    let fallback = Point {
        line: line,
        offset: match end_of_line(cursor_text(buffer), line) {
            Some(length) => length,
            None => 0,
        },
    };
    if accepts(buffer, wanted) {
        wanted
    } else {
        moved(buffer, fallback)
    }
}

/// `text` with `data` put in before index `i`.
pub open spec fn splice(text: Seq<char>, i: int, data: Seq<char>) -> Seq<char> {
    text.take(i) + data + text.skip(i)
}

/// Whether `result` is `text` with `data` put in at some place.
pub open spec fn spliced(text: Seq<char>, data: Seq<char>, result: Seq<char>) -> bool {
    exists|i: int| 0 <= i <= text.len() && result == #[trigger] splice(text, i, data)
}

/// Borrows `Workspace::current_buffer`, the field in which scribe keeps
/// the buffer that is being edited.
///
/// Believed: the buffer handed out is the workspace's current one, and what
/// the caller leaves in it is what the workspace holds afterwards, beside
/// the same other buffers. Without a current buffer the workspace stays as
/// it is.
#[verifier::external_body]
pub(crate) fn current_buffer(workspace: &mut scribe::Workspace) -> (buffer: Option<
    &mut scribe::Buffer,
>)
    ensures
        match buffer {
            Some(b) => {
                &&& workspace_current(*old(workspace)) == Some(*b)
                &&& workspace_current(*final(workspace)) == Some(*final(b))
                &&& other_buffers(*final(workspace)) == other_buffers(*old(workspace))
            },
            None => {
                &&& workspace_current(*old(workspace)).is_none()
                &&& *final(workspace) == *old(workspace)
            },
        },
{
    workspace.current_buffer.as_mut()
}

/// Calls `Buffer::data`, which copies the buffer's text into a string.
#[verifier::external_body]
pub(crate) fn buffer_data(buffer: &scribe::Buffer) -> (text: String)
    ensures
        text@ == buffer_text(*buffer),
{
    buffer.data()
}

/// Reads the line and the offset of `Buffer::cursor`, the position that
/// scribe's `Cursor` holds.
#[verifier::external_body]
pub(crate) fn cursor_position(buffer: &scribe::Buffer) -> (p: Position)
    ensures
        p@ == buffer_cursor(*buffer),
{
    Position { line: buffer.cursor.line, offset: buffer.cursor.offset }
}

/// Calls `Cursor::move_to`, which checks the target against the buffer's
/// data: the cursor goes there if it lies within, and stays if not.
/// Nothing but the cursor is touched, here and in the six moves below: the
/// text is the same, the buffer lets its cursor go where it did before,
/// and a group of edits stays open or closed as it was.
#[verifier::external_body]
pub(crate) fn cursor_move_to(buffer: &mut scribe::Buffer, target: Position) -> (went: bool)
    ensures
        went == accepts(*old(buffer), target@),
        only_cursor_differs(*old(buffer), *final(buffer)),
        buffer_cursor(*final(buffer)) == moved(*old(buffer), target@),
        forall|p: Point| accepts(*final(buffer), p) == accepts(*old(buffer), p),
{
    buffer.cursor.move_to(scribe::buffer::Position { line: target.line, offset: target.offset })
}

/// Calls `Cursor::move_up`. On line 0 it does nothing. Else it tries the
/// line above: first at the offset that the cursor keeps in mind, as
/// `Cursor::move_to` does it, and where that fails, at the end of that
/// line, in the same way.
#[verifier::external_body]
pub(crate) fn cursor_move_up(buffer: &mut scribe::Buffer)
    ensures
        only_cursor_differs(*old(buffer), *final(buffer)),
        buffer_cursor(*final(buffer)) == if buffer_cursor(*old(buffer)).line == 0 {
            buffer_cursor(*old(buffer))
        } else {
            moved_to_line(
                *old(buffer),
                (buffer_cursor(*old(buffer)).line - 1) as nat,
                remembered_offset(*old(buffer)),
            )
        },
{
    buffer.cursor.move_up()
}

/// Calls `Cursor::move_down`, which tries the line below in the way of
/// `Cursor::move_up`: first at the offset that the cursor keeps in mind,
/// then at the end of that line. It adds one to the line, which must not be
/// the largest number.
#[verifier::external_body]
pub(crate) fn cursor_move_down(buffer: &mut scribe::Buffer)
    requires
        buffer_cursor(*old(buffer)).line < usize::MAX,
    ensures
        only_cursor_differs(*old(buffer), *final(buffer)),
        buffer_cursor(*final(buffer)) == moved_to_line(
            *old(buffer),
            buffer_cursor(*old(buffer)).line + 1,
            remembered_offset(*old(buffer)),
        ),
{
    buffer.cursor.move_down()
}

/// Calls `Cursor::move_left`: at offset 0 nothing happens, else the cursor
/// is moved to the offset before, as `Cursor::move_to` does it.
#[verifier::external_body]
pub(crate) fn cursor_move_left(buffer: &mut scribe::Buffer)
    ensures
        only_cursor_differs(*old(buffer), *final(buffer)),
        buffer_cursor(*final(buffer)) == if buffer_cursor(*old(buffer)).offset == 0 {
            buffer_cursor(*old(buffer))
        } else {
            moved(
                *old(buffer),
                Point {
                    line: buffer_cursor(*old(buffer)).line,
                    offset: (buffer_cursor(*old(buffer)).offset - 1) as nat,
                },
            )
        },
{
    buffer.cursor.move_left()
}

/// Calls `Cursor::move_right`: the cursor is moved to the next offset, as
/// `Cursor::move_to` does it. It adds one to the offset, which must not be
/// the largest number.
#[verifier::external_body]
pub(crate) fn cursor_move_right(buffer: &mut scribe::Buffer)
    requires
        buffer_cursor(*old(buffer)).offset < usize::MAX,
    ensures
        only_cursor_differs(*old(buffer), *final(buffer)),
        buffer_cursor(*final(buffer)) == moved(
            *old(buffer),
            Point {
                line: buffer_cursor(*old(buffer)).line,
                offset: buffer_cursor(*old(buffer)).offset + 1,
            },
        ),
{
    buffer.cursor.move_right()
}

/// Calls `Cursor::move_to_start_of_line`: the cursor is moved to offset 0
/// of its line, as `Cursor::move_to` does it.
#[verifier::external_body]
pub(crate) fn cursor_move_to_start_of_line(buffer: &mut scribe::Buffer)
    ensures
        only_cursor_differs(*old(buffer), *final(buffer)),
        buffer_cursor(*final(buffer)) == moved(
            *old(buffer),
            Point { line: buffer_cursor(*old(buffer)).line, offset: 0 },
        ),
{
    buffer.cursor.move_to_start_of_line()
}

/// Calls `Cursor::move_to_end_of_line`: where the text that the cursor
/// sees has the cursor's line, the cursor is moved to the length of that
/// line, as `Cursor::move_to` does it; where not, nothing happens.
#[verifier::external_body]
pub(crate) fn cursor_move_to_end_of_line(buffer: &mut scribe::Buffer)
    ensures
        only_cursor_differs(*old(buffer), *final(buffer)),
        buffer_cursor(*final(buffer)) == match end_of_line(
            cursor_text(*old(buffer)),
            buffer_cursor(*old(buffer)).line,
        ) {
            Some(length) => moved(
                *old(buffer),
                Point { line: buffer_cursor(*old(buffer)).line, offset: length },
            ),
            None => buffer_cursor(*old(buffer)),
        },
{
    buffer.cursor.move_to_end_of_line()
}

/// Calls `Buffer::insert`, which puts the data into the text where the
/// cursor stands and leaves the cursor there. Where the buffer's data has
/// no such place, the text stays as it is. The place is the buffer's to
/// find: the text that comes of it has a name, and is the old text or the
/// old text with the data put in. The edit goes into the open group, if
/// there is one, which stays open. scribe then calls the buffer's
/// `change_callback`, if its maker set one: what that closure does is its
/// maker's.
#[verifier::external_body]
pub(crate) fn buffer_insert(buffer: &mut scribe::Buffer, data: &str)
    ensures
        buffer_text(*final(buffer)) == text_after_insert(*old(buffer), data@),
        grouping(*final(buffer)) == grouping(*old(buffer)),
        buffer_text(*final(buffer)) == buffer_text(*old(buffer)) || spliced(
            buffer_text(*old(buffer)),
            data@,
            buffer_text(*final(buffer)),
        ),
        buffer_cursor(*final(buffer)) == buffer_cursor(*old(buffer)),
{
    buffer.insert(data)
}

/// Calls `Buffer::start_operation_group`, after which the buffer gathers
/// its edits into a group, a new one unless it was gathering already. Text
/// and cursor stay as they are, and so does what the cursor sees and where
/// it can go.
#[verifier::external_body]
pub(crate) fn buffer_start_operation_group(buffer: &mut scribe::Buffer)
    ensures
        grouping(*final(buffer)),
        buffer_text(*final(buffer)) == buffer_text(*old(buffer)),
        cursor_text(*final(buffer)) == cursor_text(*old(buffer)),
        forall|p: Point| accepts(*final(buffer), p) == accepts(*old(buffer), p),
        buffer_cursor(*final(buffer)) == buffer_cursor(*old(buffer)),
{
    buffer.start_operation_group()
}

} // verus!
