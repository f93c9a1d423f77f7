//! The input side of the browser: which key asks for which operation, and
//! what the engine does with it.

use crate::batch::all_ok;
use crate::batch::fetched_values;
use crate::batch::first_failure;
use crate::error::DataError;
use crate::model::Model;
use crate::model::ModelView;
use crate::table::ContentView;
use crate::table::LoadedTable;
use crate::table::TableContent;
use crate::table::ViewState;
use crate::ui::UserInterface;
use vstd::prelude::*;

verus! {

/// The key of a key event, as far as the bindings tell keys apart.
#[derive(Debug, Clone, Copy, PartialEq, Eq)]
pub enum KeyCode {
    Char(char),
    Esc,
    Up,
    Down,
    Left,
    Right,
    Other,
}

/// The modifiers held with a key: none, shift alone, or anything else.
#[derive(Debug, Clone, Copy, PartialEq, Eq)]
pub enum KeyModifiers {
    Plain,
    Shift,
    Other,
}

/// Whether a key went down or something else happened to it.
#[derive(Debug, Clone, Copy, PartialEq, Eq)]
pub enum KeyEventKind {
    Press,
    Other,
}

/// One key event of the terminal.
#[derive(Debug, Clone, Copy, PartialEq, Eq)]
pub struct KeyEvent {
    pub code: KeyCode,
    pub modifiers: KeyModifiers,
    pub kind: KeyEventKind,
}

/// One event of the terminal.
#[derive(Debug, Clone, Copy, PartialEq, Eq)]
pub enum Event {
    Key(KeyEvent),
    Other,
}

/// The operations that keys are bound to.
#[derive(Debug, Clone, Copy, PartialEq, Eq)]
pub enum Command {
    Quit,
    Next,
    Previous,
    SwitchToTableView,
    SwitchToMainView,
    ToggleSchema,
    PreviousColumn,
    NextColumn,
    ToggleColumn,
    Ignore,
}

/// What the caller has to do for the engine before the next frame.
#[derive(Debug, Clone, Copy, PartialEq, Eq)]
pub enum Request {
    /// Nothing.
    Nothing,
    /// Fetch columns and rows of every table and hand the results to
    /// `finish_refresh`, to complete the switch to the given view.
    Refresh(ViewState),
}

/// The key bindings: with no modifier `q` and Esc quit, `j` and Down step
/// forward, `k` and Up step back, `l` and Right drill in, `h` and Left drill
/// out, `s` and Space toggle the schema popup; with shift `H` and Left step
/// a column back, `L` and Right a column forward, and `S` toggles the column
/// highlight. Every other key is ignored.
pub open spec fn spec_command_for(code: KeyCode, modifiers: KeyModifiers) -> Command {
    let plain = modifiers == KeyModifiers::Plain;
    let shift = modifiers == KeyModifiers::Shift;
    if plain && (code == KeyCode::Char('q') || code == KeyCode::Esc) {
        Command::Quit
    } else if plain && (code == KeyCode::Char('j') || code == KeyCode::Down) {
        Command::Next
    } else if plain && (code == KeyCode::Char('k') || code == KeyCode::Up) {
        Command::Previous
    } else if plain && (code == KeyCode::Char('l') || code == KeyCode::Right) {
        Command::SwitchToTableView
    } else if plain && (code == KeyCode::Char('h') || code == KeyCode::Left) {
        Command::SwitchToMainView
    } else if plain && (code == KeyCode::Char('s') || code == KeyCode::Char(' ')) {
        Command::ToggleSchema
    } else if shift && (code == KeyCode::Char('H') || code == KeyCode::Left) {
        Command::PreviousColumn
    } else if shift && (code == KeyCode::Char('L') || code == KeyCode::Right) {
        Command::NextColumn
    } else if shift && code == KeyCode::Char('S') {
        Command::ToggleColumn
    } else {
        Command::Ignore
    }
}

/// The operation that a key event asks for.
pub fn command_for(code: KeyCode, modifiers: KeyModifiers) -> (command: Command)
    ensures
        command == spec_command_for(code, modifiers),
{
    match modifiers {
        KeyModifiers::Plain => match code {
            KeyCode::Char(c) => if c == 'q' {
                Command::Quit
            } else if c == 'j' {
                Command::Next
            } else if c == 'k' {
                Command::Previous
            } else if c == 'l' {
                Command::SwitchToTableView
            } else if c == 'h' {
                Command::SwitchToMainView
            } else if c == 's' || c == ' ' {
                Command::ToggleSchema
            } else {
                Command::Ignore
            },
            KeyCode::Esc => Command::Quit,
            KeyCode::Down => Command::Next,
            KeyCode::Up => Command::Previous,
            KeyCode::Right => Command::SwitchToTableView,
            KeyCode::Left => Command::SwitchToMainView,
            KeyCode::Other => Command::Ignore,
        },
        KeyModifiers::Shift => match code {
            KeyCode::Char(c) => if c == 'H' {
                Command::PreviousColumn
            } else if c == 'L' {
                Command::NextColumn
            } else if c == 'S' {
                Command::ToggleColumn
            } else {
                Command::Ignore
            },
            KeyCode::Left => Command::PreviousColumn,
            KeyCode::Right => Command::NextColumn,
            _ => Command::Ignore,
        },
        KeyModifiers::Other => Command::Ignore,
    }
}

/// The browser: the engine, the renderer's side of it, and whether the user
/// has asked to leave.
#[derive(Debug)]
pub struct App {
    ui: UserInterface,
    model: Model,
    exit: bool,
}

/// The mathematical value of an `App`.
pub struct AppView {
    pub model: ModelView,
    pub exit: bool,
}

impl AppView {
    /// The state after `command`, as far as the engine can go without the
    /// data source: the two switches of view change nothing yet.
    pub open spec fn after(self, command: Command) -> AppView {
        match command {
            Command::Quit => AppView { exit: true, ..self },
            Command::Next => AppView { model: self.model.stepped_next(), ..self },
            Command::Previous => AppView { model: self.model.stepped_previous(), ..self },
            Command::SwitchToTableView => self,
            Command::SwitchToMainView => self,
            Command::ToggleSchema => AppView { model: self.model.toggled_schema(), ..self },
            Command::PreviousColumn => AppView {
                model: self.model.stepped_previous_column(),
                ..self
            },
            Command::NextColumn => AppView { model: self.model.stepped_next_column(), ..self },
            Command::ToggleColumn => AppView { model: self.model.toggled_column(), ..self },
            Command::Ignore => self,
        }
    }

    /// What `command` asks of the caller: a refresh for a switch of view
    /// that the state allows, nothing otherwise.
    pub open spec fn request(self, command: Command) -> Request {
        match command {
            Command::SwitchToTableView => if self.model.can_drill_in() {
                Request::Refresh(ViewState::Table)
            } else {
                Request::Nothing
            },
            Command::SwitchToMainView => if self.model.can_drill_out() {
                Request::Refresh(ViewState::Main)
            } else {
                Request::Nothing
            },
            _ => Request::Nothing,
        }
    }

    /// The state after a refresh for `target` that succeeded with `fetched`.
    pub open spec fn refreshed(self, target: ViewState, fetched: Seq<ContentView>) -> AppView {
        match target {
            ViewState::Table => AppView { model: self.model.drilled_in(fetched), ..self },
            ViewState::Main => AppView { model: self.model.drilled_out(fetched), ..self },
        }
    }

    /// Whether a refresh for `target` changes anything.
    pub open spec fn awaits(self, target: ViewState) -> bool {
        match target {
            ViewState::Table => self.model.can_drill_in(),
            ViewState::Main => self.model.can_drill_out(),
        }
    }
}

impl View for App {
    type V = AppView;

    closed spec fn view(&self) -> AppView {
        AppView { model: self.model@, exit: self.exit }
    }
}

impl App {
    /// The browser at startup, showing the main view of the tables in
    /// `loaded`: the result of one fetch for each table of the database. If
    /// any fetch failed, its first failure is returned.
    pub fn new(loaded: Vec<Result<LoadedTable, DataError>>) -> (app: Result<App, DataError>)
        ensures
            app is Ok <==> all_ok(loaded@),
            match app {
                Ok(app) => {
                    &&& app@.model == ModelView::initial().loaded(
                        fetched_values(loaded@).map_values(|l: LoadedTable| l@),
                    )
                    &&& app@.model.wf()
                    &&& !app@.exit
                },
                Err(e) => first_failure(loaded@) == Some(e),
            },
    {
        let mut model = Model::new();
        match model.initialize(loaded) {
            Ok(_) => Ok(App { ui: UserInterface::new(), model, exit: false }),
            Err(e) => Err(e),
        }
    }

    /// Handles one event of the terminal: a key that went down is handled
    /// as `handle_key_event` says, anything else is ignored.
    pub fn handle_events(&mut self, event: Event) -> (request: Request)
        ensures
            match event {
                Event::Key(key) if key.kind == KeyEventKind::Press => {
                    &&& final(self)@ == old(self)@.after(spec_command_for(key.code, key.modifiers))
                    &&& request == old(self)@.request(spec_command_for(key.code, key.modifiers))
                },
                _ => final(self)@ == old(self)@ && request == Request::Nothing,
            },
            old(self)@.model.wf() ==> final(self)@.model.wf(),
    {
        match event {
            Event::Key(key) => match key.kind {
                KeyEventKind::Press => self.handle_key_event(key),
                KeyEventKind::Other => Request::Nothing,
            },
            Event::Other => Request::Nothing,
        }
    }

    /// Performs the operation that a key is bound to. A switch of view needs
    /// the data source first: for one that the state allows, the returned
    /// request asks the caller to fetch, and `finish_refresh` completes it.
    pub fn handle_key_event(&mut self, key_event: KeyEvent) -> (request: Request)
        ensures
            final(self)@ == old(self)@.after(
                spec_command_for(key_event.code, key_event.modifiers),
            ),
            request == old(self)@.request(spec_command_for(key_event.code, key_event.modifiers)),
            old(self)@.model.wf() ==> final(self)@.model.wf(),
    {
        let command = command_for(key_event.code, key_event.modifiers);
        match command {
            Command::Quit => {
                self.exit();
                Request::Nothing
            },
            Command::Next => {
                self.model.next();
                Request::Nothing
            },
            Command::Previous => {
                self.model.previous();
                Request::Nothing
            },
            Command::SwitchToTableView => {
                let in_main: bool = match self.model.view_state() {
                    ViewState::Main => true,
                    ViewState::Table => false,
                };
                if in_main && self.model.tables().len() > 0 {
                    Request::Refresh(ViewState::Table)
                } else {
                    Request::Nothing
                }
            },
            Command::SwitchToMainView => {
                match self.model.view_state() {
                    ViewState::Main => Request::Nothing,
                    ViewState::Table => Request::Refresh(ViewState::Main),
                }
            },
            Command::ToggleSchema => {
                self.model.toggle_schema();
                Request::Nothing
            },
            Command::PreviousColumn => {
                self.model.previous_column();
                Request::Nothing
            },
            Command::NextColumn => {
                self.model.next_column();
                Request::Nothing
            },
            Command::ToggleColumn => {
                self.model.toggle_column();
                Request::Nothing
            },
            Command::Ignore => Request::Nothing,
        }
    }

    /// Completes a switch of view with what was fetched for it: one result
    /// of columns and rows for each table, in the order of the tables. If
    /// any fetch failed, nothing changes and its first failure is returned.
    /// If the state does not allow the switch, nothing changes either.
    pub fn finish_refresh(
        &mut self,
        target: ViewState,
        fetched: Vec<Result<TableContent, DataError>>,
    ) -> (done: Result<(), DataError>)
        requires
            old(self)@.awaits(target) ==> fetched@.len() == old(self)@.model.tables.len(),
        ensures
            done is Ok <==> !old(self)@.awaits(target) || all_ok(fetched@),
            match done {
                Ok(_) => final(self)@ == old(self)@.refreshed(
                    target,
                    fetched_values(fetched@).map_values(|c: TableContent| c@),
                ),
                Err(e) => *final(self) == *old(self) && first_failure(fetched@) == Some(e),
            },
            old(self)@.model.wf() ==> final(self)@.model.wf(),
    {
        match target {
            ViewState::Table => self.model.switch_to_table_view(fetched),
            ViewState::Main => self.model.switch_to_main_view(fetched),
        }
    }

    fn exit(&mut self)
        ensures
            final(self)@ == (AppView { exit: true, ..old(self)@ }),
    {
        self.exit = true;
    }

    /// Whether the user has asked to leave.
    pub fn is_exiting(&self) -> (exit: bool)
        ensures
            exit == self@.exit,
    {
        self.exit
    }

    /// The engine.
    pub fn model(&self) -> (model: &Model)
        ensures
            model@ == self@.model,
    {
        &self.model
    }

    /// The renderer's side of the engine.
    pub fn ui(&self) -> &UserInterface {
        &self.ui
    }
}

} // verus!
