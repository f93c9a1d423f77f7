//! Table descriptors and the content that each view mode shows of a table.

use crate::cell::Cell;
use crate::cell::CellKind;
use crate::cell::CellView;
use crate::text::decimal_of_usize;
use crate::text::decimal_text;
use vstd::prelude::*;

verus! {

/// The two view modes: `Main` lists one summary row per table, `Table` lists
/// the rows of the selected table.
#[derive(Debug, Clone, Copy, PartialEq, Eq, Structural)]
pub enum ViewState {
    Main,
    Table,
}

/// The columns and rows of one table, as the data source returns them or as
/// a view mode shows them.
#[derive(Debug, Clone)]
pub struct TableContent {
    pub columns: Vec<String>,
    pub rows: Vec<Vec<Cell>>,
}

/// The mathematical value of a `TableContent`.
pub struct ContentView {
    pub columns: Seq<Seq<char>>,
    pub rows: Seq<Seq<CellView>>,
}

impl View for TableContent {
    type V = ContentView;

    open spec fn view(&self) -> ContentView {
        ContentView { columns: self.columns.deep_view(), rows: self.rows.deep_view() }
    }
}

impl DeepView for TableContent {
    type V = ContentView;

    open spec fn deep_view(&self) -> ContentView {
        self@
    }
}

/// A table as it is loaded at startup: its name, its definition statement
/// and what the data source returned for it.
#[derive(Debug, Clone)]
pub struct LoadedTable {
    pub name: String,
    pub schema: String,
    pub content: TableContent,
}

/// The mathematical value of a `LoadedTable`.
pub struct LoadedView {
    pub name: Seq<char>,
    pub schema: Seq<char>,
    pub content: ContentView,
}

impl View for LoadedTable {
    type V = LoadedView;

    open spec fn view(&self) -> LoadedView {
        LoadedView { name: self.name@, schema: self.schema@, content: self.content@ }
    }
}

impl DeepView for LoadedTable {
    type V = LoadedView;

    open spec fn deep_view(&self) -> LoadedView {
        self@
    }
}

/// A table descriptor: name, column names in declaration order, rows, and
/// the statement that defines the table.
#[derive(Debug, Clone)]
pub struct Table {
    name: String,
    columns: Vec<String>,
    rows: Vec<Vec<Cell>>,
    schema: String,
}

/// The mathematical value of a `Table`.
pub struct TableView {
    pub name: Seq<char>,
    pub columns: Seq<Seq<char>>,
    pub rows: Seq<Seq<CellView>>,
    pub schema: Seq<char>,
}

impl View for Table {
    type V = TableView;

    closed spec fn view(&self) -> TableView {
        TableView {
            name: self.name@,
            columns: self.columns.deep_view(),
            rows: self.rows.deep_view(),
            schema: self.schema@,
        }
    }
}

impl DeepView for Table {
    type V = TableView;

    open spec fn deep_view(&self) -> TableView {
        self@
    }
}

/// The header of the summary that the main view shows.
pub open spec fn overview_header() -> Seq<Seq<char>> {
    seq!["#"@, "Table"@, "Columns"@, "Rows"@]
}

/// A text cell.
pub open spec fn text_cell(text: Seq<char>) -> CellView {
    CellView { kind: CellKind::Text, text }
}

/// The summary row of a table: its 1-based ordinal, its name, the number of
/// its columns and the number of its rows.
pub open spec fn overview_row(
    ordinal: nat,
    name: Seq<char>,
    column_count: nat,
    row_count: nat,
) -> Seq<CellView> {
    seq![
        text_cell(decimal_text(ordinal as int)),
        text_cell(name),
        text_cell(decimal_text(column_count as int)),
        text_cell(decimal_text(row_count as int)),
    ]
}

/// What a view mode shows of the table with the given ordinal and name, for
/// which the data source returned `fetched`: the summary in the main view,
/// the fetched columns and rows themselves in the table view.
pub open spec fn content_for(
    view: ViewState,
    ordinal: nat,
    name: Seq<char>,
    fetched: ContentView,
) -> ContentView {
    match view {
        ViewState::Main => ContentView {
            columns: overview_header(),
            rows: seq![overview_row(ordinal, name, fetched.columns.len(), fetched.rows.len())],
        },
        ViewState::Table => fetched,
    }
}

/// The descriptor of a table with the given name and definition, showing
/// `content`.
pub open spec fn described(name: Seq<char>, schema: Seq<char>, content: ContentView) -> TableView {
    TableView { name, columns: content.columns, rows: content.rows, schema }
}

impl Table {
    /// Puts a descriptor together from its parts.
    pub fn new(name: String, schema: String, content: TableContent) -> (table: Table)
        ensures
            table@ == described(name@, schema@, content@),
    {
        Table { name, columns: content.columns, rows: content.rows, schema }
    }

    pub fn name(&self) -> (name: &str)
        ensures
            name@ == self@.name,
    {
        self.name.as_str()
    }

    pub fn columns(&self) -> (columns: &Vec<String>)
        ensures
            columns.deep_view() == self@.columns,
    {
        &self.columns
    }

    pub fn rows(&self) -> (rows: &Vec<Vec<Cell>>)
        ensures
            rows.deep_view() == self@.rows,
    {
        &self.rows
    }

    pub fn schema(&self) -> (schema: &str)
        ensures
            schema@ == self@.schema,
    {
        self.schema.as_str()
    }
}

/// The header of the summary, as owned strings.
pub fn overview_columns() -> (columns: Vec<String>)
    ensures
        columns.deep_view() == overview_header(),
{
    let mut columns: Vec<String> = Vec::new();
    columns.push(String::from_str("#"));
    columns.push(String::from_str("Table"));
    columns.push(String::from_str("Columns"));
    columns.push(String::from_str("Rows"));
    assert(columns.deep_view() =~= overview_header());
    columns
}

/// The summary row of one table.
pub fn overview_cells(
    ordinal: usize,
    name: &str,
    column_count: usize,
    row_count: usize,
) -> (row: Vec<Cell>)
    ensures
        row.deep_view() == overview_row(
            ordinal as nat,
            name@,
            column_count as nat,
            row_count as nat,
        ),
{
    let mut row: Vec<Cell> = Vec::new();
    row.push(Cell::from_text(decimal_of_usize(ordinal)));
    row.push(Cell::from_text(String::from_str(name)));
    row.push(Cell::from_text(decimal_of_usize(column_count)));
    row.push(Cell::from_text(decimal_of_usize(row_count)));
    assert(row.deep_view() =~= overview_row(
        ordinal as nat,
        name@,
        column_count as nat,
        row_count as nat,
    ));
    row
}

/// What `view` shows of a table, made from what the data source returned
/// for it.
pub fn display_content(
    view: ViewState,
    ordinal: usize,
    name: &str,
    fetched: TableContent,
) -> (shown: TableContent)
    ensures
        shown@ == content_for(view, ordinal as nat, name@, fetched@),
{
    match view {
        ViewState::Main => {
            let row = overview_cells(ordinal, name, fetched.columns.len(), fetched.rows.len());
            let mut rows: Vec<Vec<Cell>> = Vec::new();
            rows.push(row);
            let shown = TableContent { columns: overview_columns(), rows };
            assert(shown@.rows =~= content_for(view, ordinal as nat, name@, fetched@).rows);
            shown
        },
        ViewState::Table => fetched,
    }
}

} // verus!
