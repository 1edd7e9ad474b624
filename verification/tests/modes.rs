use amp::commands::Command;
use amp::models::application::modes::{
    ConfirmState, JumpState, LineJumpState, SearchInsertState, SearchSelectState, SelectState,
};
use amp::models::application::{Mode, Presenter};
use amp::position::Position;

fn search(insert: bool, input: &str) -> SearchSelectState {
    SearchSelectState { input: input.to_string(), insert }
}

fn select() -> SelectState {
    SelectState { anchor: Position { line: 1, offset: 2 } }
}

#[test]
fn plain_modes_have_their_own_names() {
    assert_eq!(Mode::Normal.keymap_name(), Some("normal"));
    assert_eq!(Mode::Insert.keymap_name(), Some("insert"));
    let confirm = Mode::Confirm(ConfirmState { command: Command::Exit });
    assert_eq!(confirm.keymap_name(), Some("confirm"));
    assert_eq!(Mode::Jump(JumpState { input: String::new() }).keymap_name(), Some("jump"));
    let line_jump = Mode::LineJump(LineJumpState { input: "12".to_string() });
    assert_eq!(line_jump.keymap_name(), Some("line_jump"));
    assert_eq!(Mode::Select(select()).keymap_name(), Some("select"));
    assert_eq!(Mode::SelectLine(select()).keymap_name(), Some("select_line"));
    let search_insert = Mode::SearchInsert(SearchInsertState { input: "a".to_string() });
    assert_eq!(search_insert.keymap_name(), Some("search_insert"));
}

#[test]
fn search_select_modes_follow_their_insert_flag() {
    assert_eq!(Mode::Command(search(true, "")).keymap_name(), Some("search_select_insert"));
    assert_eq!(Mode::Command(search(false, "")).keymap_name(), Some("search_select"));
    assert_eq!(Mode::Open(search(true, "")).keymap_name(), Some("search_select_insert"));
    assert_eq!(Mode::Open(search(false, "")).keymap_name(), Some("search_select"));
    assert_eq!(Mode::SymbolJump(search(true, "")).keymap_name(), Some("search_select_insert"));
    assert_eq!(Mode::SymbolJump(search(false, "")).keymap_name(), Some("search_select"));
    assert_eq!(Mode::Theme(search(true, "")).keymap_name(), Some("search_select_insert"));
    assert_eq!(Mode::Theme(search(false, "")).keymap_name(), Some("search_select"));
}

#[test]
fn the_name_does_not_depend_on_the_rest_of_the_state() {
    assert_eq!(
        Mode::Open(search(true, "abc")).keymap_name(),
        Mode::Open(search(true, "xyz")).keymap_name()
    );
    assert_eq!(
        Mode::Jump(JumpState { input: "a".to_string() }).keymap_name(),
        Mode::Jump(JumpState { input: "b".to_string() }).keymap_name()
    );
}

#[test]
fn exit_has_no_key_map() {
    assert_eq!(Mode::Exit.keymap_name(), None);
    assert!(Mode::Exit.is_exit());
    assert!(!Mode::Normal.is_exit());
}

#[test]
fn insert_mode_reports_the_flag() {
    assert!(search(true, "").insert_mode());
    assert!(!search(false, "").insert_mode());
}

#[test]
fn each_mode_has_its_presenter() {
    let confirm = Mode::Confirm(ConfirmState { command: Command::Exit });
    assert_eq!(confirm.presenter(), Some(Presenter::Confirm));
    assert_eq!(Mode::Command(search(true, "")).presenter(), Some(Presenter::SearchSelect));
    assert_eq!(Mode::Open(search(false, "")).presenter(), Some(Presenter::SearchSelect));
    assert_eq!(Mode::SymbolJump(search(false, "")).presenter(), Some(Presenter::SearchSelect));
    assert_eq!(Mode::Theme(search(false, "")).presenter(), Some(Presenter::SearchSelect));
    assert_eq!(Mode::Insert.presenter(), Some(Presenter::Insert));
    let search_insert = Mode::SearchInsert(SearchInsertState { input: String::new() });
    assert_eq!(search_insert.presenter(), Some(Presenter::SearchInsert));
    assert_eq!(Mode::Jump(JumpState { input: String::new() }).presenter(), Some(Presenter::Jump));
    let line_jump = Mode::LineJump(LineJumpState { input: String::new() });
    assert_eq!(line_jump.presenter(), Some(Presenter::LineJump));
    assert_eq!(Mode::Select(select()).presenter(), Some(Presenter::Select));
    assert_eq!(Mode::SelectLine(select()).presenter(), Some(Presenter::SelectLine));
    assert_eq!(Mode::Normal.presenter(), Some(Presenter::Normal));
    assert_eq!(Mode::Exit.presenter(), None);
}
