use amp::commands::application::switch_to_insert_mode;
use amp::commands::buffer::{insert_newline, start_command_group};
use amp::commands::cursor;
use amp::input::KeyMap;
use amp::models::application::{Application, Mode};
use std::path::Path;

fn application() -> Application {
    let workspace = scribe::Workspace::new(Path::new(".")).unwrap();
    Application::new(workspace, KeyMap::new(), None)
}

fn application_with(text: &str, line: usize, offset: usize) -> Application {
    let mut app = application();
    let mut buffer = scribe::Buffer::new();
    buffer.insert(text);
    let position = scribe::buffer::Position { line, offset };
    assert!(buffer.cursor.move_to(position));
    app.workspace.add_buffer(buffer);
    app
}

fn cursor_of(app: &Application) -> (usize, usize) {
    let buffer = app.workspace.current_buffer.as_ref().unwrap();
    (buffer.cursor.line, buffer.cursor.offset)
}

fn text_of(app: &Application) -> String {
    app.workspace.current_buffer.as_ref().unwrap().data()
}

#[test]
fn move_to_first_word_of_line_works() {
    let mut app = application();
    let mut buffer = scribe::Buffer::new();

    // Insert data with indentation and move to the end of the line.
    buffer.insert("    amp");
    let position = scribe::buffer::Position { line: 0, offset: 7 };
    buffer.cursor.move_to(position);

    // Now that we've set up the buffer, add it
    // to the application and call the command.
    app.workspace.add_buffer(buffer);
    cursor::move_to_first_word_of_line(&mut app);

    // Ensure that the cursor is moved to the start of the first word.
    assert_eq!(app.workspace.current_buffer.as_ref().unwrap().cursor.line, 0);
    assert_eq!(app.workspace.current_buffer.as_ref().unwrap().cursor.offset, 4);
}

#[test]
fn move_to_start_of_previous_token_works() {
    let mut app = application();
    let mut buffer = scribe::Buffer::new();

    buffer.insert("amp editor");
    let position = scribe::buffer::Position { line: 0, offset: 7 };
    buffer.cursor.move_to(position);

    app.workspace.add_buffer(buffer);
    cursor::move_to_start_of_previous_token(&mut app);

    // Ensure that the cursor is moved to the start of the previous word.
    assert_eq!(app.workspace.current_buffer.as_ref().unwrap().cursor.line, 0);
    assert_eq!(app.workspace.current_buffer.as_ref().unwrap().cursor.offset, 4);
}

#[test]
fn move_to_start_of_previous_token_skips_whitespace() {
    let mut app = application();
    let mut buffer = scribe::Buffer::new();

    buffer.insert("amp editor");
    let position = scribe::buffer::Position { line: 0, offset: 7 };
    buffer.cursor.move_to(position);

    app.workspace.add_buffer(buffer);
    cursor::move_to_start_of_previous_token(&mut app);
    cursor::move_to_start_of_previous_token(&mut app);

    // Ensure that the cursor is moved to the start of the previous word.
    assert_eq!(app.workspace.current_buffer.as_ref().unwrap().cursor.line, 0);
    assert_eq!(app.workspace.current_buffer.as_ref().unwrap().cursor.offset, 0);
}

#[test]
fn move_to_start_of_next_token_works() {
    let mut app = application();
    let mut buffer = scribe::Buffer::new();

    buffer.insert("amp editor");

    app.workspace.add_buffer(buffer);
    cursor::move_to_start_of_next_token(&mut app);

    // Ensure that the cursor is moved to the start of the next word.
    assert_eq!(app.workspace.current_buffer.as_ref().unwrap().cursor.line, 0);
    assert_eq!(app.workspace.current_buffer.as_ref().unwrap().cursor.offset, 4);
}

#[test]
fn commands_do_nothing_without_a_buffer() {
    let mut app = application();
    cursor::move_up(&mut app);
    cursor::move_down(&mut app);
    cursor::move_left(&mut app);
    cursor::move_right(&mut app);
    cursor::move_to_start_of_line(&mut app);
    cursor::move_to_first_word_of_line(&mut app);
    cursor::move_to_end_of_line(&mut app);
    cursor::move_to_start_of_previous_token(&mut app);
    cursor::move_to_start_of_next_token(&mut app);
    start_command_group(&mut app);
    insert_newline(&mut app);
    assert!(app.workspace.current_buffer.is_none());
    assert!(matches!(app.mode, Mode::Normal));
    assert!(app.error.is_none());
}

#[test]
fn first_word_of_a_blank_line_leaves_the_cursor() {
    let mut app = application_with("   \t ", 0, 3);
    cursor::move_to_first_word_of_line(&mut app);
    assert_eq!(cursor_of(&app), (0, 3));
}

#[test]
fn first_word_is_found_on_the_cursor_line() {
    let mut app = application_with("one\n  two\nthree", 1, 5);
    cursor::move_to_first_word_of_line(&mut app);
    assert_eq!(cursor_of(&app), (1, 2));
}

#[test]
fn previous_token_at_the_start_stays_at_the_start() {
    let mut app = application_with("amp editor", 0, 0);
    cursor::move_to_start_of_previous_token(&mut app);
    assert_eq!(cursor_of(&app), (0, 0));
    cursor::move_to_start_of_previous_token(&mut app);
    assert_eq!(cursor_of(&app), (0, 0));
}

#[test]
fn previous_token_with_leading_whitespace_goes_to_the_origin() {
    let mut app = application_with("  amp", 0, 2);
    cursor::move_to_start_of_previous_token(&mut app);
    assert_eq!(cursor_of(&app), (0, 0));
}

#[test]
fn previous_then_next_from_inside_the_last_word() {
    let mut app = application_with("amp editor", 0, 7);
    cursor::move_to_start_of_previous_token(&mut app);
    cursor::move_to_start_of_next_token(&mut app);
    assert_eq!(cursor_of(&app), (0, 4));
}

#[test]
fn previous_then_next_crosses_to_a_later_word() {
    let mut app = application_with("amp editor foo", 0, 5);
    cursor::move_to_start_of_previous_token(&mut app);
    assert_eq!(cursor_of(&app), (0, 4));
    cursor::move_to_start_of_next_token(&mut app);
    assert_eq!(cursor_of(&app), (0, 11));
}

#[test]
fn next_token_without_a_following_token_stays() {
    let mut app = application_with("amp editor", 0, 4);
    cursor::move_to_start_of_next_token(&mut app);
    assert_eq!(cursor_of(&app), (0, 4));
}

#[test]
fn next_token_crosses_lines() {
    let mut app = application_with("amp\n  editor", 0, 1);
    cursor::move_to_start_of_next_token(&mut app);
    assert_eq!(cursor_of(&app), (1, 2));
}

#[test]
fn previous_token_crosses_lines() {
    let mut app = application_with("amp\n  editor", 1, 2);
    cursor::move_to_start_of_previous_token(&mut app);
    assert_eq!(cursor_of(&app), (0, 0));
}

#[test]
fn token_motions_on_an_empty_buffer_leave_the_cursor() {
    let mut app = application_with("", 0, 0);
    cursor::move_to_start_of_previous_token(&mut app);
    assert_eq!(cursor_of(&app), (0, 0));
    cursor::move_to_start_of_next_token(&mut app);
    assert_eq!(cursor_of(&app), (0, 0));
}

#[test]
fn move_left_and_right_step_by_one() {
    let mut app = application_with("amp", 0, 1);
    cursor::move_right(&mut app);
    assert_eq!(cursor_of(&app), (0, 2));
    cursor::move_left(&mut app);
    cursor::move_left(&mut app);
    assert_eq!(cursor_of(&app), (0, 0));
    cursor::move_left(&mut app);
    assert_eq!(cursor_of(&app), (0, 0));
}

#[test]
fn move_right_stops_at_the_end_of_the_line() {
    let mut app = application_with("amp\neditor", 0, 3);
    cursor::move_right(&mut app);
    assert_eq!(cursor_of(&app), (0, 3));
}

#[test]
fn move_up_and_down_change_the_line() {
    let mut app = application_with("amp\neditor", 0, 2);
    cursor::move_down(&mut app);
    assert_eq!(cursor_of(&app), (1, 2));
    cursor::move_down(&mut app);
    assert_eq!(cursor_of(&app), (1, 2));
    cursor::move_up(&mut app);
    assert_eq!(cursor_of(&app), (0, 2));
    cursor::move_up(&mut app);
    assert_eq!(cursor_of(&app), (0, 2));
}

#[test]
fn move_to_start_and_end_of_line() {
    let mut app = application_with("amp\neditor", 1, 3);
    cursor::move_to_end_of_line(&mut app);
    assert_eq!(cursor_of(&app), (1, 6));
    cursor::move_to_start_of_line(&mut app);
    assert_eq!(cursor_of(&app), (1, 0));
    assert_eq!(text_of(&app), "amp\neditor");
}

#[test]
fn insert_at_end_of_line_moves_and_switches() {
    let mut app = application_with("amp\neditor", 0, 1);
    cursor::insert_at_end_of_line(&mut app);
    assert_eq!(cursor_of(&app), (0, 3));
    assert!(matches!(app.mode, Mode::Insert));
}

#[test]
fn insert_at_first_word_of_line_moves_and_switches() {
    let mut app = application_with("    amp", 0, 7);
    cursor::insert_at_first_word_of_line(&mut app);
    assert_eq!(cursor_of(&app), (0, 4));
    assert!(matches!(app.mode, Mode::Insert));
}

#[test]
fn insert_with_newline_opens_a_line_below() {
    let mut app = application_with("amp\neditor", 0, 1);
    cursor::insert_with_newline(&mut app);
    assert_eq!(text_of(&app), "amp\n\neditor");
    assert_eq!(cursor_of(&app), (1, 0));
    assert!(matches!(app.mode, Mode::Insert));
}

#[test]
fn insert_with_newline_is_undone_as_one_group() {
    let mut app = application_with("amp", 0, 0);
    cursor::insert_with_newline(&mut app);
    {
        let buffer = app.workspace.current_buffer.as_mut().unwrap();
        buffer.insert("x");
        buffer.end_operation_group();
        buffer.undo();
    }
    assert_eq!(text_of(&app), "amp");
}

#[test]
fn insert_newline_breaks_the_line_at_the_cursor() {
    let mut app = application_with("amp", 0, 1);
    insert_newline(&mut app);
    assert_eq!(text_of(&app), "a\nmp");
    assert_eq!(cursor_of(&app), (1, 0));
    assert!(matches!(app.mode, Mode::Normal));
}

#[test]
fn start_command_group_leaves_text_and_cursor() {
    let mut app = application_with("amp", 0, 2);
    start_command_group(&mut app);
    assert_eq!(text_of(&app), "amp");
    assert_eq!(cursor_of(&app), (0, 2));
}

#[test]
fn switching_to_insert_mode_leaves_the_cursor() {
    let mut app = application_with("amp editor", 0, 7);
    switch_to_insert_mode(&mut app);
    assert!(matches!(app.mode, Mode::Insert));
    assert_eq!(cursor_of(&app), (0, 7));
    assert_eq!(text_of(&app), "amp editor");
}

#[test]
fn next_then_previous_returns_to_the_word() {
    let mut app = application_with("amp editor foo", 0, 5);
    cursor::move_to_start_of_next_token(&mut app);
    assert_eq!(cursor_of(&app), (0, 11));
    cursor::move_to_start_of_previous_token(&mut app);
    assert_eq!(cursor_of(&app), (0, 4));
}

#[test]
fn move_down_and_up_keep_the_offset_in_mind() {
    let mut app = application_with("amp editor\nab\namp editor", 0, 7);
    cursor::move_down(&mut app);
    assert_eq!(cursor_of(&app), (1, 2));
    cursor::move_down(&mut app);
    assert_eq!(cursor_of(&app), (2, 7));
    cursor::move_up(&mut app);
    assert_eq!(cursor_of(&app), (1, 2));
    cursor::move_up(&mut app);
    assert_eq!(cursor_of(&app), (0, 7));
    assert_eq!(text_of(&app), "amp editor\nab\namp editor");
}

#[test]
fn move_up_and_down_stop_at_the_first_and_last_line() {
    let mut app = application_with("amp\neditor", 0, 1);
    cursor::move_up(&mut app);
    assert_eq!(cursor_of(&app), (0, 1));
    cursor::move_down(&mut app);
    assert_eq!(cursor_of(&app), (1, 1));
    cursor::move_down(&mut app);
    assert_eq!(cursor_of(&app), (1, 1));
}

#[test]
fn start_command_group_gathers_the_edits_that_follow() {
    let mut app = application_with("amp", 0, 0);
    start_command_group(&mut app);
    {
        let buffer = app.workspace.current_buffer.as_mut().unwrap();
        buffer.insert("x");
        buffer.insert("y");
        buffer.end_operation_group();
    }
    assert_eq!(text_of(&app), "yxamp");
    app.workspace.current_buffer.as_mut().unwrap().undo();
    assert_eq!(text_of(&app), "amp");
}

#[test]
fn insert_newline_at_the_end_of_the_text() {
    let mut app = application_with("amp", 0, 3);
    insert_newline(&mut app);
    assert_eq!(text_of(&app), "amp\n");
    assert_eq!(cursor_of(&app), (1, 0));
}

#[test]
fn motions_leave_the_other_buffers() {
    let mut app = application_with("amp editor", 0, 7);
    let mut second = scribe::Buffer::new();
    second.insert("second one");
    assert!(second.cursor.move_to(scribe::buffer::Position { line: 0, offset: 9 }));
    app.workspace.add_buffer(second);
    cursor::move_to_start_of_previous_token(&mut app);
    assert_eq!(cursor_of(&app), (0, 7));
    cursor::move_to_start_of_previous_token(&mut app);
    cursor::move_to_start_of_next_token(&mut app);
    assert_eq!(cursor_of(&app), (0, 7));
    app.workspace.previous_buffer();
    assert_eq!(text_of(&app), "amp editor");
    assert_eq!(cursor_of(&app), (0, 7));
    app.workspace.next_buffer();
    assert_eq!(text_of(&app), "second one");
    assert_eq!(cursor_of(&app), (0, 7));
}

#[test]
fn first_word_of_line_a_second_time_stays() {
    let mut app = application_with("    amp", 0, 7);
    cursor::move_to_first_word_of_line(&mut app);
    assert_eq!(cursor_of(&app), (0, 4));
    cursor::move_to_first_word_of_line(&mut app);
    assert_eq!(cursor_of(&app), (0, 4));
}

fn word_starts(text: &str) -> Vec<(usize, usize)> {
    let mut starts = Vec::new();
    let mut line = 0;
    let mut offset = 0;
    let mut before: Option<bool> = None;
    for c in text.chars() {
        let blank = c == ' ' || c == '\n';
        if !blank && before != Some(false) {
            starts.push((line, offset));
        }
        before = Some(blank);
        if c == '\n' {
            line += 1;
            offset = 0;
        } else {
            offset += 1;
        }
    }
    starts
}

fn walk_forwards(text: &str) -> Vec<(usize, usize)> {
    let mut app = application_with(text, 0, 0);
    let mut visited = Vec::new();
    loop {
        let before = cursor_of(&app);
        cursor::move_to_start_of_next_token(&mut app);
        if cursor_of(&app) == before {
            return visited;
        }
        visited.push(cursor_of(&app));
    }
}

#[test]
fn tokens_are_the_runs_between_spaces_and_line_breaks() {
    let texts = [
        "amp editor",
        "  a\tb \n\n c\nd  ",
        "tab\there now",
        "one(two) three",
        "a  b\n  c",
        "\u{e9}t\u{e9} \u{e0} la",
        " x",
        "x",
        "   ",
        "",
    ];
    for text in texts {
        let expected: Vec<(usize, usize)> =
            word_starts(text).into_iter().filter(|&start| start != (0, 0)).collect();
        assert_eq!(walk_forwards(text), expected, "text {:?}", text);
    }
}

#[test]
fn a_cursor_put_in_by_hand_goes_by_the_text_that_it_sees() {
    let mut app = application();
    let mut buffer = scribe::Buffer::new();
    buffer.insert("short");
    let seen = scribe::buffer::GapBuffer::new("a much longer line\nwith two");
    buffer.cursor = scribe::buffer::Cursor::new(
        std::rc::Rc::new(std::cell::RefCell::new(seen)),
        scribe::buffer::Position { line: 0, offset: 0 },
    );
    app.workspace.add_buffer(buffer);
    cursor::move_to_end_of_line(&mut app);
    assert_eq!(cursor_of(&app), (0, 18));
    cursor::move_down(&mut app);
    assert_eq!(cursor_of(&app), (1, 8));
    cursor::move_up(&mut app);
    assert_eq!(cursor_of(&app), (0, 18));
    assert_eq!(text_of(&app), "short");
}
