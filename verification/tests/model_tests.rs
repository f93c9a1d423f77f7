use ratatui::style::palette::tailwind;
use sqliters::cell::Cell;
use sqliters::error::DataError;
use sqliters::colors::TableColors;
use sqliters::model::Model;
use sqliters::model::ScrollbarState;
use sqliters::model::TableState;
use sqliters::table::LoadedTable;
use sqliters::table::TableContent;
use sqliters::table::ViewState;

/// A database with one table that has neither columns nor rows.
fn bare_table() -> Vec<Result<LoadedTable, DataError>> {
    vec![Ok(LoadedTable {
        name: "bare".to_string(),
        schema: String::new(),
        content: TableContent { columns: Vec::new(), rows: Vec::new() },
    })]
}

/// What a fetch returns for the table of `bare_table`.
fn bare_content() -> Vec<Result<TableContent, DataError>> {
    vec![Ok(TableContent { columns: Vec::new(), rows: Vec::new() })]
}

fn users_content() -> TableContent {
    TableContent {
        columns: vec!["id".to_string(), "name".to_string(), "age".to_string()],
        rows: vec![
            vec![Cell::from_integer(1), Cell::from_text("ada".to_string()), Cell::from_integer(36)],
            vec![Cell::from_integer(2), Cell::from_text("grace".to_string()), Cell::from_null()],
        ],
    }
}

fn numbers_content(rows: usize) -> TableContent {
    TableContent {
        columns: vec!["n".to_string()],
        rows: (0..rows).map(|n| vec![Cell::from_integer(n as i64)]).collect(),
    }
}

fn two_tables() -> Vec<Result<LoadedTable, DataError>> {
    vec![
        Ok(LoadedTable {
            name: "users".to_string(),
            schema: "CREATE TABLE users (id INTEGER, name TEXT, age INTEGER)".to_string(),
            content: users_content(),
        }),
        Ok(LoadedTable {
            name: "numbers".to_string(),
            schema: "CREATE TABLE numbers (n INTEGER)".to_string(),
            content: numbers_content(250),
        }),
    ]
}

fn two_contents() -> Vec<Result<TableContent, DataError>> {
    vec![Ok(users_content()), Ok(numbers_content(250))]
}

fn texts(cells: &[Cell]) -> Vec<String> {
    cells.iter().map(|c| c.as_str().to_string()).collect()
}

#[test]
fn initialize_main_view() {
    let mut model = Model::new();
    assert!(model.initialize(Vec::new()).is_ok());
    assert!(!model.is_schema_enabled());
    assert!(!model.is_column_enabled());
    assert_eq!(model.tables().len(), 0);
    assert_eq!(model.view_state(), ViewState::Main);
    assert_eq!(model.selected_table_id(), 0);
    assert_eq!(model.state().selected(), Some(0));
    assert_eq!(model.scroll_state(), &ScrollbarState::default());
    assert_eq!(model.colors(), &TableColors::new(&tailwind::TEAL));
    assert_eq!(model.longest_in_column(), 0);
    assert_eq!(model.active_column(), 0);
}

#[test]
fn initialize_table_view() {
    let mut model = Model::new();
    assert!(model.initialize(bare_table()).is_ok());
    model.switch_to_table_view(bare_content()).unwrap();
    assert_eq!(model.view_state(), ViewState::Table);
    assert_eq!(model.selected_table_id(), 0);
    assert_eq!(model.state().selected(), Some(0));
    assert_eq!(model.scroll_state(), &ScrollbarState::default());
    assert_eq!(model.colors(), &TableColors::new(&tailwind::TEAL));
    assert_eq!(model.longest_in_column(), 0);
    assert!(!model.is_schema_enabled());
    assert!(!model.is_column_enabled());
}

#[test]
fn main_view_empty_next() {
    let mut model = Model::new();
    assert!(model.initialize(Vec::new()).is_ok());
    model.next();
    assert_eq!(model.state().selected(), Some(0));
    assert_eq!(model.scroll_state(), &ScrollbarState::default());
}

#[test]
fn table_view_empty_next() {
    let mut model = Model::new();
    assert!(model.initialize(Vec::new()).is_ok());
    model.switch_to_table_view(Vec::new()).unwrap();
    model.next();
    assert_eq!(model.state().selected(), Some(0));
    assert_eq!(model.scroll_state(), &ScrollbarState::default());
}

#[test]
fn main_view_empty_previous() {
    let mut model = Model::new();
    assert!(model.initialize(Vec::new()).is_ok());
    model.previous();
    assert_eq!(model.state().selected(), Some(0));
    assert_eq!(model.scroll_state(), &ScrollbarState::default());
}

#[test]
fn table_view_empty_previous() {
    let mut model = Model::new();
    assert!(model.initialize(Vec::new()).is_ok());
    model.switch_to_table_view(Vec::new()).unwrap();
    model.previous();
    assert_eq!(model.state().selected(), Some(0));
    assert_eq!(model.scroll_state(), &ScrollbarState::default());
}

#[test]
fn switch_to_main_view() {
    let mut model = Model::new();
    assert!(model.initialize(bare_table()).is_ok());
    model.switch_to_table_view(bare_content()).unwrap();
    assert_eq!(model.view_state(), ViewState::Table);
    assert_eq!(model.selected_table_id(), 0);
    assert_eq!(model.state().selected(), Some(0));
    assert_eq!(model.scroll_state(), &ScrollbarState::default());
    assert_eq!(model.colors(), &TableColors::new(&tailwind::TEAL));
    assert_eq!(model.longest_in_column(), 0);
    model.switch_to_main_view(bare_content()).unwrap();
    assert_eq!(model.view_state(), ViewState::Main);
    assert_eq!(model.selected_table_id(), 0);
    assert_eq!(model.state().selected(), Some(0));
    assert_eq!(model.scroll_state(), &ScrollbarState::default());
    assert_eq!(model.colors(), &TableColors::new(&tailwind::TEAL));
    assert_eq!(model.longest_in_column(), 2);
}

#[test]
fn toggle_schema_main_view() {
    let mut model = Model::new();
    assert!(model.initialize(Vec::new()).is_ok());
    assert!(!model.is_schema_enabled());
    model.toggle_schema();
    assert!(model.is_schema_enabled());
}

#[test]
fn toggle_schema_table_view() {
    let mut model = Model::new();
    assert!(model.initialize(bare_table()).is_ok());
    model.switch_to_table_view(bare_content()).unwrap();
    assert!(!model.is_schema_enabled());
    model.toggle_schema();
    assert!(!model.is_schema_enabled());
}

#[test]
fn toggle_column_main_view() {
    let mut model = Model::new();
    assert!(model.initialize(Vec::new()).is_ok());
    assert!(!model.is_column_enabled());
    model.toggle_column();
    assert!(model.is_column_enabled());
}

#[test]
fn toggle_column_table_view() {
    let mut model = Model::new();
    assert!(model.initialize(Vec::new()).is_ok());
    assert!(!model.is_column_enabled());
    model.toggle_column();
    assert!(model.is_column_enabled());
}

#[test]
fn info_text_main_view() {
    let mut model = Model::new();
    assert!(model.initialize(Vec::new()).is_ok());
    assert_eq!(
        model.get_info_text(),
        "(Esc) quit | (↑) move up | (↓) move down | (⇧ S) toggle column select | (Space) toggle schema (→) table view"
    );
}

#[test]
fn info_text_with_column_main_view() {
    let mut model = Model::new();
    assert!(model.initialize(Vec::new()).is_ok());
    model.toggle_column();
    assert_eq!(
        model.get_info_text(),
        "(Esc) quit | (↑) move up | (↓) move down | (⇧ S) toggle column select | (Space) toggle schema (→) table view | (⇧ ←) previous column | (⇧ →) next column"
    );
}

#[test]
fn info_text_table_view() {
    let mut model = Model::new();
    assert!(model.initialize(bare_table()).is_ok());
    model.switch_to_table_view(bare_content()).unwrap();
    assert_eq!(
        model.get_info_text(),
        "(Esc) quit | (↑) move up | (↓) move down | (⇧ S) toggle column select | (←) main view"
    );
}

#[test]
fn info_text_column_table_view() {
    let mut model = Model::new();
    assert!(model.initialize(bare_table()).is_ok());
    model.switch_to_table_view(bare_content()).unwrap();
    model.toggle_column();
    assert_eq!(
        model.get_info_text(),
        "(Esc) quit | (↑) move up | (↓) move down | (⇧ S) toggle column select | (←) main view | (⇧ ←) previous column | (⇧ →) next column"
    );
}

#[test]
fn empty_database_stays_in_main_view() {
    let mut model = Model::new();
    assert!(model.initialize(Vec::new()).is_ok());
    model.next();
    assert_eq!(model.cursor(), 0);
    model.previous();
    assert_eq!(model.cursor(), 0);
    assert!(model.switch_to_table_view(Vec::new()).is_ok());
    assert_eq!(model.view_state(), ViewState::Main);
    assert_eq!(model.tables().len(), 0);
    assert_eq!(model.table_schema(), None);
    assert_eq!(model.get_table_columns().len(), 0);
    assert_eq!(model.get_table_rows().len(), 1);
    assert_eq!(model.get_table_rows()[0].len(), 0);
}

#[test]
fn startup_shows_one_summary_row_for_each_table() {
    let mut model = Model::new();
    assert!(model.initialize(two_tables()).is_ok());
    assert_eq!(model.view_state(), ViewState::Main);
    assert_eq!(model.tables().len(), 2);
    for table in model.tables() {
        assert_eq!(table.columns(), &vec!["#", "Table", "Columns", "Rows"]);
        assert_eq!(table.rows().len(), 1);
    }
    assert_eq!(texts(&model.tables()[0].rows()[0]), vec!["1", "users", "3", "2"]);
    assert_eq!(texts(&model.tables()[1].rows()[0]), vec!["2", "numbers", "1", "250"]);
    assert_eq!(model.tables()[0].name(), "users");
    assert_eq!(model.tables()[1].schema(), "CREATE TABLE numbers (n INTEGER)");
    assert_eq!(model.scroll_state(), &ScrollbarState::new(4));
}

#[test]
fn next_and_previous_wrap_and_undo_each_other() {
    let mut model = Model::new();
    assert!(model.initialize(two_tables()).is_ok());
    model.next();
    assert_eq!(model.cursor(), 1);
    assert_eq!(model.scroll_state(), &ScrollbarState::new(4).position(4));
    model.previous();
    assert_eq!(model.cursor(), 0);
    model.previous();
    assert_eq!(model.cursor(), 1);
    model.next();
    assert_eq!(model.cursor(), 0);
    assert_eq!(model.scroll_state(), &ScrollbarState::new(4));
}

#[test]
fn drill_in_shows_the_rows_of_the_table_under_the_cursor() {
    let mut model = Model::new();
    assert!(model.initialize(two_tables()).is_ok());
    model.toggle_schema();
    model.toggle_column();
    model.next_column();
    model.next();
    assert!(model.switch_to_table_view(two_contents()).is_ok());
    assert_eq!(model.view_state(), ViewState::Table);
    assert_eq!(model.selected_table_id(), 1);
    assert_eq!(model.cursor(), 0);
    assert_eq!(model.active_column(), 0);
    assert!(!model.is_column_enabled());
    assert!(!model.is_schema_enabled());
    assert_eq!(model.get_table_columns(), &["n".to_string()]);
    assert_eq!(model.get_table_rows().len(), 250);
    assert_eq!(texts(model.get_table_rows()[249]), vec!["249"]);
    assert_eq!(model.tables()[0].rows().len(), 2);
    assert_eq!(model.tables()[0].columns().len(), 3);
    assert_eq!(model.scroll_state(), &ScrollbarState::new(249 * 4));
    assert_eq!(model.table_schema(), Some("CREATE TABLE numbers (n INTEGER)"));
    model.previous();
    assert_eq!(model.cursor(), 249);
    assert_eq!(model.scroll_state(), &ScrollbarState::new(249 * 4).position(249 * 4));
    model.next();
    assert_eq!(model.cursor(), 0);
}

#[test]
fn round_trip_restores_the_main_view() {
    let mut model = Model::new();
    assert!(model.initialize(two_tables()).is_ok());
    let before: Vec<(String, Vec<String>, Vec<Vec<String>>, String)> = model
        .tables()
        .iter()
        .map(|t| {
            (
                t.name().to_string(),
                t.columns().clone(),
                t.rows().iter().map(|r| texts(r)).collect(),
                t.schema().to_string(),
            )
        })
        .collect();
    assert!(model.switch_to_table_view(two_contents()).is_ok());
    model.next();
    assert!(model.switch_to_main_view(two_contents()).is_ok());
    let after: Vec<(String, Vec<String>, Vec<Vec<String>>, String)> = model
        .tables()
        .iter()
        .map(|t| {
            (
                t.name().to_string(),
                t.columns().clone(),
                t.rows().iter().map(|r| texts(r)).collect(),
                t.schema().to_string(),
            )
        })
        .collect();
    assert_eq!(before, after);
    assert_eq!(model.view_state(), ViewState::Main);
    assert_eq!(model.cursor(), 0);
    assert_eq!(model.selected_table_id(), 1);
    assert_eq!(model.scroll_state(), &ScrollbarState::new(4));
}

#[test]
fn drill_out_clamps_the_selected_table() {
    let mut model = Model::new();
    assert!(model.initialize(two_tables()).is_ok());
    model.next();
    assert!(model.switch_to_table_view(two_contents()).is_ok());
    model.previous();
    assert_eq!(model.cursor(), 249);
    assert!(model.switch_to_main_view(two_contents()).is_ok());
    assert_eq!(model.selected_table_id(), 1);
    assert_eq!(model.cursor(), 0);
}

#[test]
fn failed_fetch_leaves_the_engine_as_it_was() {
    let mut model = Model::new();
    assert!(model.initialize(two_tables()).is_ok());
    model.next();
    model.toggle_schema();
    let failing = vec![
        Ok(users_content()),
        Err(DataError::QueryFailed),
    ];
    assert_eq!(model.switch_to_table_view(failing), Err(DataError::QueryFailed));
    assert_eq!(model.view_state(), ViewState::Main);
    assert_eq!(model.cursor(), 1);
    assert!(model.is_schema_enabled());
    assert_eq!(model.tables().len(), 2);
    assert_eq!(texts(&model.tables()[0].rows()[0]), vec!["1", "users", "3", "2"]);
    assert_eq!(model.tables()[0].columns(), &vec!["#", "Table", "Columns", "Rows"]);
    assert_eq!(model.scroll_state(), &ScrollbarState::new(4).position(4));

    assert!(model.switch_to_table_view(two_contents()).is_ok());
    let first_of_two = vec![
        Err(DataError::DataSourceUnavailable),
        Err(DataError::QueryFailed),
    ];
    assert_eq!(model.switch_to_main_view(first_of_two), Err(DataError::DataSourceUnavailable));
    assert_eq!(model.view_state(), ViewState::Table);
    assert_eq!(model.get_table_rows().len(), 250);
}

#[test]
fn failed_load_installs_nothing() {
    let mut model = Model::new();
    let mut loaded = two_tables();
    loaded.push(Err(DataError::UnsupportedColumnType));
    assert_eq!(model.initialize(loaded), Err(DataError::UnsupportedColumnType));
    assert_eq!(model.tables().len(), 0);
    assert_eq!(model.scroll_state(), &ScrollbarState::default());
}

#[test]
fn column_cycling_over_three_columns() {
    let mut model = Model::new();
    assert!(model.initialize(two_tables()).is_ok());
    assert!(model.switch_to_table_view(two_contents()).is_ok());
    assert_eq!(model.get_table_columns().len(), 3);
    model.next_column();
    assert_eq!(model.active_column(), 0);
    model.toggle_column();
    model.previous_column();
    assert_eq!(model.active_column(), 2);
    model.next_column();
    assert_eq!(model.active_column(), 0);
    model.next_column();
    assert_eq!(model.active_column(), 1);
    model.toggle_column();
    assert_eq!(model.active_column(), 1);
    model.previous_column();
    assert_eq!(model.active_column(), 1);
}

#[test]
fn column_steps_without_columns_stay_at_rest() {
    let mut model = Model::new();
    assert!(model.initialize(Vec::new()).is_ok());
    model.toggle_column();
    model.next_column();
    assert_eq!(model.active_column(), 0);
    model.previous_column();
    assert_eq!(model.active_column(), 0);
}

#[test]
fn width_hint_is_a_tenth_more_rounded_up() {
    let mut model = Model::new();
    assert!(model.initialize(two_tables()).is_ok());
    assert_eq!(model.longest_in_column(), 2);
    model.toggle_column();
    model.next_column();
    assert_eq!(model.longest_in_column(), 6);
    model.next_column();
    assert_eq!(model.longest_in_column(), 8);
    assert!(model.switch_to_table_view(two_contents()).is_ok());
    model.toggle_column();
    model.next_column();
    assert_eq!(model.get_table_columns()[1], "name");
    assert_eq!(model.longest_in_column(), 6);
    model.next_column();
    assert_eq!(model.longest_in_column(), 5);
}

#[test]
fn schema_popup_follows_the_cursor() {
    let mut model = Model::new();
    assert!(model.initialize(two_tables()).is_ok());
    model.toggle_schema();
    assert_eq!(
        model.table_schema(),
        Some("CREATE TABLE users (id INTEGER, name TEXT, age INTEGER)")
    );
    model.next();
    assert_eq!(model.table_schema(), Some("CREATE TABLE numbers (n INTEGER)"));
    model.toggle_schema();
    assert_eq!(
        model.table_schema(),
        Some("CREATE TABLE users (id INTEGER, name TEXT, age INTEGER)")
    );
}

#[test]
fn steps_without_a_list_rest_on_zero() {
    let mut model = Model::new();
    assert!(model.initialize(two_tables()).is_ok());
    model.next();
    assert!(model.switch_to_table_view(two_contents()).is_ok());
    model.next();
    model.next();
    assert_eq!(model.cursor(), 2);
    assert!(model.initialize(Vec::new()).is_ok());
    assert_eq!(model.view_state(), ViewState::Table);
    assert_eq!(model.cursor(), 2);
    model.previous();
    assert_eq!(model.cursor(), 0);
    assert_eq!(model.scroll_state(), &ScrollbarState::default());
    model.next();
    assert_eq!(model.cursor(), 0);
}

#[test]
fn widget_states() {
    assert_eq!(TableState::default().selected(), None);
    assert_eq!(TableState::with_selected(Some(3)).selected(), Some(3));
    let scroll = ScrollbarState::new(40).position(8);
    assert_eq!(scroll.content_length(), 40);
    assert_eq!(scroll.get_position(), 8);
    assert_eq!(ScrollbarState::new(0), ScrollbarState::default());
}
