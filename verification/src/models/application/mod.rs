//! The application: its editing modes, what each of them means for key
//! lookup and for drawing, and the dispatch of keys to commands.
pub mod modes;

use vstd::prelude::*;
use crate::commands::{Command, effect, execute};
use crate::engine::workspace_current;
use crate::input::{Key, KeyMap};
use crate::models::application::modes::{
    ConfirmState, JumpState, LineJumpState, SearchInsertState, SearchSelectState, SelectState,
};

verus! {

/// The editing modes. One is active at a time, and each carries its own
/// state.
#[derive(Debug)]
pub enum Mode {
    Confirm(ConfirmState),
    Command(SearchSelectState),
    Exit,
    Insert,
    Jump(JumpState),
    LineJump(LineJumpState),
    Normal,
    Open(SearchSelectState),
    Select(SelectState),
    SelectLine(SelectState),
    SearchInsert(SearchInsertState),
    SymbolJump(SearchSelectState),
    Theme(SearchSelectState),
}

/// The kinds of display, one per family of modes.
#[derive(Clone, Copy, Debug, PartialEq, Eq, Structural)]
pub enum Presenter {
    Confirm,
    SearchSelect,
    Insert,
    SearchInsert,
    Jump,
    LineJump,
    Select,
    SelectLine,
    Normal,
}

/// The name of the key map of a searching and selecting mode.
pub open spec fn search_select_name(insert: bool) -> Seq<char> {
    if insert {
        "search_select_insert"@
    } else {
        "search_select"@
    }
}

/// The name of the key map that holds for a mode. `Exit` has none: nothing
/// is looked up any more once it is entered.
pub open spec fn keymap_name(mode: Mode) -> Option<Seq<char>> {
    match mode {
        Mode::Normal => Some("normal"@),
        Mode::Insert => Some("insert"@),
        Mode::Confirm(_) => Some("confirm"@),
        Mode::Jump(_) => Some("jump"@),
        Mode::LineJump(_) => Some("line_jump"@),
        Mode::Select(_) => Some("select"@),
        Mode::SelectLine(_) => Some("select_line"@),
        Mode::SearchInsert(_) => Some("search_insert"@),
        Mode::Command(state) => Some(search_select_name(state.insert)),
        Mode::Open(state) => Some(search_select_name(state.insert)),
        Mode::SymbolJump(state) => Some(search_select_name(state.insert)),
        Mode::Theme(state) => Some(search_select_name(state.insert)),
        Mode::Exit => None,
    }
}

/// The display that shows a mode. `Exit` has none.
pub open spec fn presenter_of(mode: Mode) -> Option<Presenter> {
    match mode {
        Mode::Confirm(_) => Some(Presenter::Confirm),
        Mode::Command(_) => Some(Presenter::SearchSelect),
        Mode::Insert => Some(Presenter::Insert),
        Mode::Open(_) => Some(Presenter::SearchSelect),
        Mode::SearchInsert(_) => Some(Presenter::SearchInsert),
        Mode::Jump(_) => Some(Presenter::Jump),
        Mode::LineJump(_) => Some(Presenter::LineJump),
        Mode::SymbolJump(_) => Some(Presenter::SearchSelect),
        Mode::Select(_) => Some(Presenter::Select),
        Mode::SelectLine(_) => Some(Presenter::SelectLine),
        Mode::Normal => Some(Presenter::Normal),
        Mode::Theme(_) => Some(Presenter::SearchSelect),
        Mode::Exit => None,
    }
}

/// Whether two modes are of one kind as far as key lookup goes: the same
/// variant, and for the searching and selecting modes the same answer to
/// whether text is being taken.
pub open spec fn same_kind(a: Mode, b: Mode) -> bool {
    match (a, b) {
        (Mode::Normal, Mode::Normal) => true,
        (Mode::Insert, Mode::Insert) => true,
        (Mode::Exit, Mode::Exit) => true,
        (Mode::Confirm(_), Mode::Confirm(_)) => true,
        (Mode::Jump(_), Mode::Jump(_)) => true,
        (Mode::LineJump(_), Mode::LineJump(_)) => true,
        (Mode::Select(_), Mode::Select(_)) => true,
        (Mode::SelectLine(_), Mode::SelectLine(_)) => true,
        (Mode::SearchInsert(_), Mode::SearchInsert(_)) => true,
        (Mode::Command(s), Mode::Command(t)) => s.insert == t.insert,
        (Mode::Open(s), Mode::Open(t)) => s.insert == t.insert,
        (Mode::SymbolJump(s), Mode::SymbolJump(t)) => s.insert == t.insert,
        (Mode::Theme(s), Mode::Theme(t)) => s.insert == t.insert,
        _ => false,
    }
}

/// The key map's name depends on the mode's kind alone: two modes of one
/// kind have the same name, whatever else their states hold.
pub proof fn lemma_keymap_name_by_kind(a: Mode, b: Mode)
    requires
        same_kind(a, b),
    ensures
        keymap_name(a) == keymap_name(b),
{
}

/// Every mode but `Exit` has a key map, and `Exit` has none.
pub proof fn lemma_keymap_name_total(mode: Mode)
    ensures
        keymap_name(mode).is_none() <==> mode is Exit,
{
}

impl Mode {
    /// The name of the key map that holds for this mode.
    pub fn keymap_name(&self) -> (name: Option<&'static str>)
        ensures
            match name {
                Some(s) => keymap_name(*self) == Some(s@),
                None => keymap_name(*self).is_none(),
            },
    {
        match self {
            Mode::Command(state) => if state.insert_mode() {
                Some("search_select_insert")
            } else {
                Some("search_select")
            },
            Mode::SymbolJump(state) => if state.insert_mode() {
                Some("search_select_insert")
            } else {
                Some("search_select")
            },
            Mode::Open(state) => if state.insert_mode() {
                Some("search_select_insert")
            } else {
                Some("search_select")
            },
            Mode::Theme(state) => if state.insert_mode() {
                Some("search_select_insert")
            } else {
                Some("search_select")
            },
            Mode::Normal => Some("normal"),
            Mode::Confirm(_) => Some("confirm"),
            Mode::Insert => Some("insert"),
            Mode::Jump(_) => Some("jump"),
            Mode::LineJump(_) => Some("line_jump"),
            Mode::Select(_) => Some("select"),
            Mode::SelectLine(_) => Some("select_line"),
            Mode::SearchInsert(_) => Some("search_insert"),
            Mode::Exit => None,
        }
    }

    /// The display that shows this mode.
    pub fn presenter(&self) -> (presenter: Option<Presenter>)
        ensures
            presenter == presenter_of(*self),
    {
        match self {
            Mode::Confirm(_) => Some(Presenter::Confirm),
            Mode::Command(_) => Some(Presenter::SearchSelect),
            Mode::Insert => Some(Presenter::Insert),
            Mode::Open(_) => Some(Presenter::SearchSelect),
            Mode::SearchInsert(_) => Some(Presenter::SearchInsert),
            Mode::Jump(_) => Some(Presenter::Jump),
            Mode::LineJump(_) => Some(Presenter::LineJump),
            Mode::SymbolJump(_) => Some(Presenter::SearchSelect),
            Mode::Select(_) => Some(Presenter::Select),
            Mode::SelectLine(_) => Some(Presenter::SelectLine),
            Mode::Normal => Some(Presenter::Normal),
            Mode::Theme(_) => Some(Presenter::SearchSelect),
            Mode::Exit => None,
        }
    }

    /// Whether this is the mode that ends the program.
    pub fn is_exit(&self) -> (b: bool)
        ensures
            b == (*self is Exit),
    {
        match self {
            Mode::Exit => true,
            _ => false,
        }
    }
}

/// What went wrong in a command, in words.
#[derive(Debug)]
pub struct CommandError {
    pub description: String,
}

/// What became of a key that was dispatched.
#[derive(Clone, Copy, Debug, PartialEq, Eq, Structural)]
pub enum Outcome {
    /// The key is not bound in the current mode: nothing happened.
    Ignored,
    /// The key's command was carried out, and its error recorded.
    Done,
    /// The key is bound to a command of the host program, which is to carry
    /// it out and to record what came of it.
    Host(u32),
}

/// What the run loop does after a key.
#[derive(Clone, Copy, Debug, PartialEq, Eq, Structural)]
pub enum Step {
    /// Draw, and wait for the next key.
    Continue,
    /// Clear the display and end.
    Exit,
    /// Carry out this command of the host program, record what came of it,
    /// and go on from there.
    Host(u32),
}

/// The editor's state: the mode, the workspace with its buffers, the last
/// search query, the error of the last command, and the key map.
pub struct Application {
    pub mode: Mode,
    pub workspace: scribe::Workspace,
    pub search_query: Option<String>,
    pub error: Option<CommandError>,
    pub key_map: KeyMap,
}

impl Application {
    /// The current buffer; `None` without one.
    pub open spec fn buffer(&self) -> Option<scribe::Buffer> {
        workspace_current(self.workspace)
    }

    /// Whether all but the workspace is as in `before`: the mode, the
    /// search query, the error and the key map.
    pub open spec fn same_but_workspace(&self, before: &Application) -> bool {
        &&& self.mode == before.mode
        &&& self.search_query == before.search_query
        &&& self.error == before.error
        &&& self.key_map == before.key_map
    }

    /// Whether all but the mode is as in `before`: the workspace, and with
    /// it every buffer and cursor, the search query, the error and the key
    /// map.
    pub open spec fn same_but_mode(&self, before: &Application) -> bool {
        &&& self.workspace == before.workspace
        &&& self.search_query == before.search_query
        &&& self.error == before.error
        &&& self.key_map == before.key_map
    }

    /// Whether all but the error is as in `before`.
    pub open spec fn same_but_error(&self, before: &Application) -> bool {
        &&& self.mode == before.mode
        &&& self.workspace == before.workspace
        &&& self.search_query == before.search_query
        &&& self.key_map == before.key_map
    }

    /// A fresh application in normal mode, without a search query or an
    /// error, over the given workspace. Its key map is the default one
    /// with the user's bindings merged into it: where both bind a key in a
    /// mode, the user's binding holds.
    pub fn new(workspace: scribe::Workspace, defaults: KeyMap, user: Option<KeyMap>) -> (app:
        Application)
        ensures
            app.mode == Mode::Normal,
            app.workspace == workspace,
            app.search_query.is_none(),
            app.error.is_none(),
            forall|mode: Seq<char>, key: Key|
                app.key_map.lookup(mode, key) == match user {
                    Some(bindings) => match bindings.lookup(mode, key) {
                        Some(command) => Some(command),
                        None => defaults.lookup(mode, key),
                    },
                    None => defaults.lookup(mode, key),
                },
    {
        let mut key_map = defaults;
        match user {
            Some(bindings) => {
                key_map.merge(bindings);
            },
            None => {},
        }
        Application { mode: Mode::Normal, workspace, search_query: None, error: None, key_map }
    }

    /// The name of the key map that holds for the application's mode.
    pub fn mode_str(application: &Application) -> (name: Option<&'static str>)
        ensures
            match name {
                Some(s) => keymap_name(application.mode) == Some(s@),
                None => keymap_name(application.mode).is_none(),
            },
    {
        application.mode.keymap_name()
    }

    /// The command that a key resolves to: the one that the key map binds
    /// it to under the name of the current mode. In the mode `Exit`
    /// nothing is looked up.
    pub open spec fn resolved(&self, key: Key) -> Option<Command> {
        match keymap_name(self.mode) {
            Some(name) => self.key_map.lookup(name, key),
            None => None,
        }
    }

    /// What becomes of a key: it is ignored where it is not bound, handed
    /// out where it is bound to a command of the host program, and carried
    /// out otherwise.
    pub open spec fn outcome_of(&self, key: Key) -> Outcome {
        match self.resolved(key) {
            None => Outcome::Ignored,
            Some(Command::Host(id)) => Outcome::Host(id),
            Some(_) => Outcome::Done,
        }
    }

    /// Whether `after` is what the dispatch of a key makes of `self`. An
    /// unbound key changes nothing. A command of the host program is
    /// handed out, and nothing changes yet. Any other command is carried
    /// out, and the error of the command before it is gone.
    pub open spec fn dispatched(&self, key: Key, after: &Application) -> bool {
        match self.resolved(key) {
            None => *after == *self,
            Some(Command::Host(_)) => *after == *self,
            Some(command) => effect(command, *self, *after) && after.error.is_none(),
        }
    }

    /// How the run loop goes on after a key was dispatched with this
    /// outcome and left the application in this mode.
    pub open spec fn step_after(outcome: Outcome, mode: Mode) -> Step {
        match outcome {
            Outcome::Host(id) => Step::Host(id),
            _ => if mode is Exit {
                Step::Exit
            } else {
                Step::Continue
            },
        }
    }

    /// The display that shows the application's mode.
    pub fn presenter(&self) -> (presenter: Option<Presenter>)
        ensures
            presenter == presenter_of(self.mode),
    {
        self.mode.presenter()
    }

    /// The command that a key is bound to in the current mode, if any.
    pub fn command_for(&self, key: &Key) -> (command: Option<Command>)
        ensures
            command == self.resolved(*key),
    {
        match Application::mode_str(self) {
            Some(name) => self.key_map.command_for(name, key),
            None => None,
        }
    }

    /// Resolves a key in the current mode and carries out its command.
    pub fn dispatch(&mut self, key: &Key) -> (outcome: Outcome)
        ensures
            outcome == old(self).outcome_of(*key),
            old(self).dispatched(*key, final(self)),
    {
        match self.command_for(key) {
            None => Outcome::Ignored,
            Some(Command::Host(id)) => Outcome::Host(id),
            Some(command) => {
                execute(self, command);
                self.error = None;
                Outcome::Done
            },
        }
    }

    /// Records what came of a command of the host program: its error, or
    /// that there was none. What was recorded before is gone either way.
    /// Says how the run loop goes on from there: it ends if the command
    /// left the mode `Exit`.
    pub fn record(&mut self, result: Result<(), CommandError>) -> (step: Step)
        ensures
            final(self).error == match result {
                Ok(_) => None,
                Err(error) => Some(error),
            },
            final(self).same_but_error(old(self)),
            step == Application::step_after(Outcome::Done, final(self).mode),
    {
        self.error = match result {
            Ok(_) => None,
            Err(error) => Some(error),
        };
        if self.mode.is_exit() {
            Step::Exit
        } else {
            Step::Continue
        }
    }

    /// One turn of the run loop, after drawing: takes what the input gave,
    /// dispatches it, and says how the loop goes on. Input that has run
    /// dry ends the loop, and so does the mode `Exit`.
    pub fn step(&mut self, input: Option<Key>) -> (step: Step)
        ensures
            match input {
                None => *final(self) == *old(self) && step == Step::Exit,
                Some(key) => {
                    &&& old(self).dispatched(key, final(self))
                    &&& step == Application::step_after(
                        old(self).outcome_of(key),
                        final(self).mode,
                    )
                },
            },
    {
        match input {
            None => Step::Exit,
            Some(key) => {
                match self.dispatch(&key) {
                    Outcome::Host(id) => Step::Host(id),
                    _ => if self.mode.is_exit() {
                        Step::Exit
                    } else {
                        Step::Continue
                    },
                }
            },
        }
    }
}

} // verus!
