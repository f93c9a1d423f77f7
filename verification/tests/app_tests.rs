use sqliters::app::command_for;
use sqliters::app::App;
use sqliters::app::Command;
use sqliters::app::Event;
use sqliters::app::KeyCode;
use sqliters::app::KeyEvent;
use sqliters::app::KeyEventKind;
use sqliters::app::KeyModifiers;
use sqliters::app::Request;
use sqliters::cell::Cell;
use sqliters::error::DataError;
use sqliters::table::LoadedTable;
use sqliters::table::TableContent;
use sqliters::table::ViewState;

fn ids() -> TableContent {
    TableContent {
        columns: vec!["id".to_string()],
        rows: vec![
            vec![Cell::from_integer(1)],
            vec![Cell::from_integer(2)],
            vec![Cell::from_integer(3)],
        ],
    }
}

fn create_test_db() -> Vec<Result<LoadedTable, DataError>> {
    vec![
        Ok(LoadedTable {
            name: "test".to_string(),
            schema: "CREATE TABLE test (id INTEGER)".to_string(),
            content: ids(),
        }),
        Ok(LoadedTable {
            name: "test2".to_string(),
            schema: "CREATE TABLE test2 (id INTEGER)".to_string(),
            content: ids(),
        }),
    ]
}

fn fetch_all() -> Vec<Result<TableContent, DataError>> {
    vec![Ok(ids()), Ok(ids())]
}

fn press(code: KeyCode, modifiers: KeyModifiers) -> KeyEvent {
    KeyEvent { code, modifiers, kind: KeyEventKind::Press }
}

/// Handles a key and performs the refresh that it asks for.
fn handle(app: &mut App, key: KeyEvent) {
    match app.handle_key_event(key) {
        Request::Nothing => {}
        Request::Refresh(target) => app.finish_refresh(target, fetch_all()).unwrap(),
    }
}

#[test]
fn handle_key_events() {
    let mut app = App::new(create_test_db()).unwrap();

    handle(&mut app, press(KeyCode::Char('q'), KeyModifiers::Plain));
    assert!(app.is_exiting());

    handle(&mut app, press(KeyCode::Char('j'), KeyModifiers::Plain));
    assert_eq!(app.model().state().selected().unwrap(), 1);

    handle(&mut app, press(KeyCode::Char('k'), KeyModifiers::Plain));
    assert_eq!(app.model().state().selected().unwrap(), 0);

    handle(&mut app, press(KeyCode::Char('l'), KeyModifiers::Plain));
    assert_eq!(app.model().view_state(), ViewState::Table);

    handle(&mut app, press(KeyCode::Char('h'), KeyModifiers::Plain));
    assert_eq!(app.model().view_state(), ViewState::Main);

    handle(&mut app, press(KeyCode::Char('s'), KeyModifiers::Plain));
    assert!(app.model().is_schema_enabled());

    handle(&mut app, press(KeyCode::Char('S'), KeyModifiers::Shift));
    assert!(app.model().is_column_enabled());

    handle(&mut app, press(KeyCode::Char('L'), KeyModifiers::Shift));
    assert_eq!(app.model().active_column(), 1);

    handle(&mut app, press(KeyCode::Char('H'), KeyModifiers::Shift));
    assert_eq!(app.model().active_column(), 0);
}

#[test]
fn every_binding_of_the_key_table() {
    let plain = KeyModifiers::Plain;
    let shift = KeyModifiers::Shift;
    assert_eq!(command_for(KeyCode::Char('q'), plain), Command::Quit);
    assert_eq!(command_for(KeyCode::Esc, plain), Command::Quit);
    assert_eq!(command_for(KeyCode::Char('j'), plain), Command::Next);
    assert_eq!(command_for(KeyCode::Down, plain), Command::Next);
    assert_eq!(command_for(KeyCode::Char('k'), plain), Command::Previous);
    assert_eq!(command_for(KeyCode::Up, plain), Command::Previous);
    assert_eq!(command_for(KeyCode::Char('l'), plain), Command::SwitchToTableView);
    assert_eq!(command_for(KeyCode::Right, plain), Command::SwitchToTableView);
    assert_eq!(command_for(KeyCode::Char('h'), plain), Command::SwitchToMainView);
    assert_eq!(command_for(KeyCode::Left, plain), Command::SwitchToMainView);
    assert_eq!(command_for(KeyCode::Char('s'), plain), Command::ToggleSchema);
    assert_eq!(command_for(KeyCode::Char(' '), plain), Command::ToggleSchema);
    assert_eq!(command_for(KeyCode::Char('H'), shift), Command::PreviousColumn);
    assert_eq!(command_for(KeyCode::Left, shift), Command::PreviousColumn);
    assert_eq!(command_for(KeyCode::Char('L'), shift), Command::NextColumn);
    assert_eq!(command_for(KeyCode::Right, shift), Command::NextColumn);
    assert_eq!(command_for(KeyCode::Char('S'), shift), Command::ToggleColumn);
}

#[test]
fn keys_without_a_binding_are_ignored() {
    assert_eq!(command_for(KeyCode::Char('x'), KeyModifiers::Plain), Command::Ignore);
    assert_eq!(command_for(KeyCode::Other, KeyModifiers::Plain), Command::Ignore);
    assert_eq!(command_for(KeyCode::Char('q'), KeyModifiers::Shift), Command::Ignore);
    assert_eq!(command_for(KeyCode::Char('S'), KeyModifiers::Plain), Command::Ignore);
    assert_eq!(command_for(KeyCode::Esc, KeyModifiers::Shift), Command::Ignore);
    assert_eq!(command_for(KeyCode::Up, KeyModifiers::Shift), Command::Ignore);
    assert_eq!(command_for(KeyCode::Char('q'), KeyModifiers::Other), Command::Ignore);
    assert_eq!(command_for(KeyCode::Left, KeyModifiers::Other), Command::Ignore);
}

#[test]
fn only_pressed_keys_count() {
    let mut app = App::new(create_test_db()).unwrap();
    let released = KeyEvent {
        code: KeyCode::Char('q'),
        modifiers: KeyModifiers::Plain,
        kind: KeyEventKind::Other,
    };
    assert_eq!(app.handle_events(Event::Key(released)), Request::Nothing);
    assert!(!app.is_exiting());
    assert_eq!(app.handle_events(Event::Other), Request::Nothing);
    assert!(!app.is_exiting());
    let down = press(KeyCode::Down, KeyModifiers::Plain);
    assert_eq!(app.handle_events(Event::Key(down)), Request::Nothing);
    assert_eq!(app.model().cursor(), 1);
    let quit = press(KeyCode::Esc, KeyModifiers::Plain);
    assert_eq!(app.handle_events(Event::Key(quit)), Request::Nothing);
    assert!(app.is_exiting());
}

#[test]
fn a_switch_of_view_waits_for_the_fetch() {
    let mut app = App::new(create_test_db()).unwrap();
    let right = press(KeyCode::Right, KeyModifiers::Plain);
    let left = press(KeyCode::Left, KeyModifiers::Plain);
    assert_eq!(app.handle_key_event(left), Request::Nothing);
    assert_eq!(app.handle_key_event(right), Request::Refresh(ViewState::Table));
    assert_eq!(app.model().view_state(), ViewState::Main);
    let failing = vec![Ok(ids()), Err(DataError::QueryFailed)];
    assert_eq!(app.finish_refresh(ViewState::Table, failing), Err(DataError::QueryFailed));
    assert_eq!(app.model().view_state(), ViewState::Main);
    assert!(app.finish_refresh(ViewState::Table, fetch_all()).is_ok());
    assert_eq!(app.model().view_state(), ViewState::Table);
    assert_eq!(app.handle_key_event(right), Request::Nothing);
    assert_eq!(app.handle_key_event(left), Request::Refresh(ViewState::Main));
    assert!(app.finish_refresh(ViewState::Main, fetch_all()).is_ok());
    assert_eq!(app.model().view_state(), ViewState::Main);
}

#[test]
fn an_empty_database_asks_for_no_fetch() {
    let mut app = App::new(Vec::new()).unwrap();
    let right = press(KeyCode::Char('l'), KeyModifiers::Plain);
    assert_eq!(app.handle_key_event(right), Request::Nothing);
    assert_eq!(app.model().view_state(), ViewState::Main);
    assert!(app.finish_refresh(ViewState::Table, Vec::new()).is_ok());
    assert_eq!(app.model().view_state(), ViewState::Main);
}

#[test]
fn a_failed_load_starts_no_browser() {
    let mut loaded = create_test_db();
    loaded.insert(1, Err(DataError::DataSourceUnavailable));
    loaded.push(Err(DataError::QueryFailed));
    assert_eq!(App::new(loaded).err(), Some(DataError::DataSourceUnavailable));
}
