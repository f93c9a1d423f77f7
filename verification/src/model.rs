//! The navigation state engine: which view is shown, where the cursor is,
//! which column is highlighted, and the table descriptors behind it all.

use crate::batch::all_ok;
use crate::batch::collect_batch;
use crate::batch::fetched_values;
use crate::batch::first_failure;
use crate::cell::Cell;
use crate::cell::CellView;
use crate::colors::default_colors;
use crate::colors::TableColors;
use crate::cursor::index_ok;
use crate::cursor::next_index;
use crate::cursor::previous_index;
use crate::cursor::scroll_bound;
use crate::cursor::scroll_offset;
use crate::cursor::spec_next_index;
use crate::cursor::spec_previous_index;
use crate::cursor::spec_scroll_bound;
use crate::cursor::spec_scroll_offset;
use crate::error::DataError;
use crate::table::content_for;
use crate::table::described;
use crate::table::display_content;
use crate::table::overview_header;
use crate::table::ContentView;
use crate::table::LoadedTable;
use crate::table::LoadedView;
use crate::table::Table;
use crate::table::TableContent;
use crate::table::TableView;
use crate::table::ViewState;
use vstd::arithmetic::div_mod::lemma_add_mod_noop;
use vstd::arithmetic::div_mod::lemma_small_mod;
use vstd::prelude::*;
use vstd::utf8::encode_utf8;

verus! {

/// The selection of the table widget: the row that the cursor is on.
#[derive(Debug, Clone, Copy, PartialEq, Eq)]
pub struct TableState {
    selected: Option<usize>,
}

impl TableState {
    pub closed spec fn spec_selected(&self) -> Option<usize> {
        self.selected
    }

    /// A selection on the given row, or on none.
    pub fn with_selected(selected: Option<usize>) -> (state: TableState)
        ensures
            state.spec_selected() == selected,
    {
        TableState { selected }
    }

    #[verifier::when_used_as_spec(spec_selected)]
    pub fn selected(&self) -> (selected: Option<usize>)
        ensures
            selected == self.spec_selected(),
    {
        self.selected
    }
}

impl Default for TableState {
    fn default() -> (state: TableState)
        ensures
            state.spec_selected() is None,
    {
        TableState { selected: None }
    }
}

/// The scrollbar's proportional indicator: how long the content is and how
/// far into it the cursor stands, both in terminal lines.
#[derive(Debug, Clone, Copy, PartialEq, Eq)]
pub struct ScrollbarState {
    content_length: usize,
    position: usize,
}

impl ScrollbarState {
    pub closed spec fn spec_content_length(&self) -> usize {
        self.content_length
    }

    pub closed spec fn spec_position(&self) -> usize {
        self.position
    }

    /// An indicator for content of the given length, at its start.
    pub fn new(content_length: usize) -> (state: ScrollbarState)
        ensures
            state.spec_content_length() == content_length,
            state.spec_position() == 0,
    {
        ScrollbarState { content_length, position: 0 }
    }

    /// The same indicator moved to `position`.
    pub fn position(self, position: usize) -> (state: ScrollbarState)
        ensures
            state.spec_content_length() == self.spec_content_length(),
            state.spec_position() == position,
    {
        ScrollbarState { content_length: self.content_length, position }
    }

    #[verifier::when_used_as_spec(spec_content_length)]
    pub fn content_length(&self) -> (length: usize)
        ensures
            length == self.spec_content_length(),
    {
        self.content_length
    }

    #[verifier::when_used_as_spec(spec_position)]
    pub fn get_position(&self) -> (position: usize)
        ensures
            position == self.spec_position(),
    {
        self.position
    }
}

impl Default for ScrollbarState {
    fn default() -> (state: ScrollbarState)
        ensures
            state.spec_content_length() == 0,
            state.spec_position() == 0,
    {
        ScrollbarState { content_length: 0, position: 0 }
    }
}

/// The state of the engine.
#[derive(Debug, Clone)]
pub struct Model {
    tables: Vec<Table>,
    selected_table_id: usize,
    cursor: usize,
    scroll_state: ScrollbarState,
    active_column: usize,
    colors: TableColors,
    view_state: ViewState,
    schema: bool,
    column: bool,
}

/// The mathematical value of a `Model`.
pub struct ModelView {
    pub tables: Seq<TableView>,
    pub selected_table_id: nat,
    pub cursor: nat,
    pub scroll_length: nat,
    pub scroll_position: nat,
    pub active_column: nat,
    pub colors: TableColors,
    pub view_state: ViewState,
    pub schema: bool,
    pub column: bool,
}

/// The descriptors of `tables` with their columns and rows replaced by what
/// `view` shows of `fetched`, one entry for each table in the same order.
/// Names and definitions stay.
pub open spec fn refreshed(
    tables: Seq<TableView>,
    view: ViewState,
    fetched: Seq<ContentView>,
) -> Seq<TableView> {
    Seq::new(
        tables.len(),
        |i: int|
            described(
                tables[i].name,
                tables[i].schema,
                content_for(view, (i + 1) as nat, tables[i].name, fetched[i]),
            ),
    )
}

/// The descriptors that the main view shows of freshly loaded tables.
pub open spec fn loaded_tables(loaded: Seq<LoadedView>) -> Seq<TableView> {
    Seq::new(
        loaded.len(),
        |i: int|
            described(
                loaded[i].name,
                loaded[i].schema,
                content_for(ViewState::Main, (i + 1) as nat, loaded[i].name, loaded[i].content),
            ),
    )
}

impl ModelView {
    /// The state before anything is loaded: no table, the main view, every
    /// index at rest and both flags off.
    pub open spec fn initial() -> ModelView {
        ModelView {
            tables: Seq::empty(),
            selected_table_id: 0,
            cursor: 0,
            scroll_length: 0,
            scroll_position: 0,
            active_column: 0,
            colors: default_colors(),
            view_state: ViewState::Main,
            schema: false,
            column: false,
        }
    }

    /// Whether the selected table exists.
    pub open spec fn has_selected(self) -> bool {
        self.selected_table_id < self.tables.len()
    }

    /// The selected table. It is meant for a state that has one.
    pub open spec fn selected(self) -> TableView {
        self.tables[self.selected_table_id as int]
    }

    /// The length of the list that the cursor walks: the tables in the main
    /// view, the rows of the selected table in the table view.
    pub open spec fn list_length(self) -> nat {
        match self.view_state {
            ViewState::Main => self.tables.len(),
            ViewState::Table => if self.has_selected() {
                self.selected().rows.len()
            } else {
                0
            },
        }
    }

    /// The number of columns of the selected table, 0 without one.
    pub open spec fn column_count(self) -> nat {
        if self.has_selected() {
            self.selected().columns.len()
        } else {
            0
        }
    }

    /// The invariant of the engine.
    pub open spec fn wf(self) -> bool {
        &&& index_ok(self.cursor, self.list_length())
        &&& index_ok(self.selected_table_id, self.tables.len())
        &&& index_ok(self.active_column, self.column_count())
        &&& self.scroll_position == spec_scroll_offset(self.cursor)
        &&& self.scroll_length == spec_scroll_bound(self.list_length())
        &&& self.schema ==> self.view_state == ViewState::Main
        &&& self.view_state == ViewState::Table ==> self.tables.len() > 0
        &&& self.view_state == ViewState::Main ==> forall|i: int|
            0 <= i < self.tables.len() ==> {
                &&& (#[trigger] self.tables[i]).columns == overview_header()
                &&& self.tables[i].rows.len() == 1
            }
    }

    /// The state after a successful load of `loaded`.
    pub open spec fn loaded(self, loaded: Seq<LoadedView>) -> ModelView {
        ModelView {
            tables: loaded_tables(loaded),
            scroll_length: spec_scroll_bound(loaded.len()),
            scroll_position: 0,
            ..self
        }
    }

    /// The state with the cursor on `cursor`.
    pub open spec fn moved_to(self, cursor: nat) -> ModelView {
        ModelView { cursor, scroll_position: spec_scroll_offset(cursor), ..self }
    }

    /// Whether there is a list for the cursor to walk: always in the main
    /// view, in the table view only with a selected table.
    pub open spec fn has_list(self) -> bool {
        self.view_state == ViewState::Main || self.has_selected()
    }

    /// The state after a step to the next item of the current list, from
    /// the last one back to the first. Without a list the cursor goes to
    /// rest on 0.
    pub open spec fn stepped_next(self) -> ModelView {
        self.moved_to(
            if self.has_list() {
                spec_next_index(self.cursor, self.list_length())
            } else {
                0
            },
        )
    }

    /// The state after a step to the previous item of the current list,
    /// from the first one on to the last. Without a list the cursor goes to
    /// rest on 0.
    pub open spec fn stepped_previous(self) -> ModelView {
        self.moved_to(
            if self.has_list() {
                spec_previous_index(self.cursor, self.list_length())
            } else {
                0
            },
        )
    }

    /// Whether a drill into a table changes anything: only from the main
    /// view, and only with a table to drill into.
    pub open spec fn can_drill_in(self) -> bool {
        self.view_state == ViewState::Main && self.tables.len() > 0
    }

    /// The state after a successful drill into the table under the cursor,
    /// for which the data source returned `fetched`.
    pub open spec fn drilled_in(self, fetched: Seq<ContentView>) -> ModelView {
        if self.can_drill_in() {
            let tables = refreshed(self.tables, ViewState::Table, fetched);
            ModelView {
                tables,
                selected_table_id: self.cursor,
                cursor: 0,
                scroll_length: if self.cursor < tables.len() {
                    spec_scroll_bound(tables[self.cursor as int].rows.len())
                } else {
                    self.scroll_length
                },
                scroll_position: if self.cursor < tables.len() {
                    0
                } else {
                    self.scroll_position
                },
                active_column: 0,
                colors: self.colors,
                view_state: ViewState::Table,
                schema: false,
                column: false,
            }
        } else {
            self
        }
    }

    /// Whether a drill out changes anything: only from the table view.
    pub open spec fn can_drill_out(self) -> bool {
        self.view_state == ViewState::Table
    }

    /// The state after a successful drill out to the main view, for which
    /// the data source returned `fetched`.
    pub open spec fn drilled_out(self, fetched: Seq<ContentView>) -> ModelView {
        if self.can_drill_out() {
            ModelView {
                tables: refreshed(self.tables, ViewState::Main, fetched),
                selected_table_id: if self.tables.len() == 0 {
                    0
                } else if self.cursor < self.tables.len() {
                    self.cursor
                } else {
                    (self.tables.len() - 1) as nat
                },
                cursor: 0,
                scroll_length: spec_scroll_bound(self.tables.len()),
                scroll_position: 0,
                active_column: 0,
                colors: self.colors,
                view_state: ViewState::Main,
                schema: self.schema,
                column: false,
            }
        } else {
            self
        }
    }
}

impl ModelView {
    /// The state after a toggle of the schema popup: flipped in the main
    /// view, as it was in the table view.
    pub open spec fn toggled_schema(self) -> ModelView {
        if self.view_state == ViewState::Main {
            ModelView { schema: !self.schema, ..self }
        } else {
            self
        }
    }

    /// The state after a toggle of the column highlight. The active column
    /// stays where it is.
    pub open spec fn toggled_column(self) -> ModelView {
        ModelView { column: !self.column, ..self }
    }

    /// The state after a step to the next column: with the highlight on,
    /// one column further, from the last one back to the first.
    pub open spec fn stepped_next_column(self) -> ModelView {
        if self.column {
            ModelView {
                active_column: spec_next_column(self.active_column, self.column_count()),
                ..self
            }
        } else {
            self
        }
    }

    /// The state after a step to the previous column: with the highlight
    /// on, one column back, from the first one on to the last.
    pub open spec fn stepped_previous_column(self) -> ModelView {
        if self.column {
            ModelView {
                active_column: spec_previous_index(self.active_column, self.column_count()),
                ..self
            }
        } else {
            self
        }
    }

    /// The table whose definition the popup shows: the one under the cursor
    /// while the popup is on, the selected one otherwise.
    pub open spec fn schema_index(self) -> nat {
        if self.schema {
            self.cursor
        } else {
            self.selected_table_id
        }
    }

    /// The width hint for the active column: a tenth more, rounded up, than
    /// the longer of its header and its longest cell; 0 without a selected
    /// table or without that column.
    pub open spec fn longest_in_column(self) -> nat {
        if self.has_selected() && self.active_column < self.selected().columns.len() {
            let header = text_width(self.selected().columns[self.active_column as int]);
            let cells = longest_cell(self.selected().rows, self.active_column as int);
            if header >= cells {
                width_hint(header)
            } else {
                width_hint(cells)
            }
        } else {
            0
        }
    }
}

/// The column after `active` among `count` columns, wrapping behind the last
/// one; without columns it stays.
pub open spec fn spec_next_column(active: nat, count: nat) -> nat {
    if count == 0 {
        active
    } else {
        (((active + 1) as int) % (count as int)) as nat
    }
}

/// The length of a text in bytes of UTF-8.
pub open spec fn text_width(text: Seq<char>) -> nat {
    encode_utf8(text).len()
}

/// The width of the widest cell that `rows` hold in `column`, 0 if none of
/// them reaches that column.
pub open spec fn longest_cell(rows: Seq<Seq<CellView>>, column: int) -> nat
    decreases rows.len(),
{
    if rows.len() == 0 {
        0
    } else {
        let rest = longest_cell(rows.drop_last(), column);
        let last = rows.last();
        if 0 <= column < last.len() && text_width(last[column].text) > rest {
            text_width(last[column].text)
        } else {
            rest
        }
    }
}

/// A tenth more than `length`, rounded up, capped at the largest `u16`.
pub open spec fn width_hint(length: nat) -> nat {
    if (length * 11 + 9) / 10 <= u16::MAX {
        ((length * 11 + 9) / 10) as nat
    } else {
        u16::MAX as nat
    }
}

/// The key help shown in the footer, for a view and the state of the column
/// highlight.
pub open spec fn info_text(view: ViewState, column: bool) -> Seq<char> {
    "(Esc) quit | (↑) move up | (↓) move down | (⇧ S) toggle column select"@ + (match view {
        ViewState::Main => " | (Space) toggle schema (→) table view"@,
        ViewState::Table => " | (←) main view"@,
    }) + (if column {
        " | (⇧ ←) previous column | (⇧ →) next column"@
    } else {
        Seq::<char>::empty()
    })
}

/// The values of the cells in `cells`.
pub open spec fn cell_views(cells: Seq<Cell>) -> Seq<CellView> {
    Seq::new(cells.len(), |i: int| cells[i]@)
}

/// The characters of the strings in `texts`.
pub open spec fn text_views(texts: Seq<String>) -> Seq<Seq<char>> {
    Seq::new(texts.len(), |i: int| texts[i]@)
}

/// The values of the tables in `tables`.
pub open spec fn table_views(tables: Seq<Table>) -> Seq<TableView> {
    Seq::new(tables.len(), |i: int| tables[i]@)
}

impl View for Model {
    type V = ModelView;

    closed spec fn view(&self) -> ModelView {
        ModelView {
            tables: self.tables.deep_view(),
            selected_table_id: self.selected_table_id as nat,
            cursor: self.cursor as nat,
            scroll_length: self.scroll_state.spec_content_length() as nat,
            scroll_position: self.scroll_state.spec_position() as nat,
            active_column: self.active_column as nat,
            colors: self.colors,
            view_state: self.view_state,
            schema: self.schema,
            column: self.column,
        }
    }
}

/// The descriptors of freshly loaded tables, showing what the main view
/// shows of each.
fn load_tables(loaded: Vec<LoadedTable>) -> (tables: Vec<Table>)
    ensures
        tables.deep_view() == loaded_tables(loaded.deep_view()),
{
    let ghost all = loaded@;
    let total: usize = loaded.len();
    let mut tables: Vec<Table> = Vec::new();
    for item in it: loaded
        invariant
            it.seq() == all,
            all.len() == total,
            tables@.len() == it.index(),
            forall|j: int|
                0 <= j < it.index() ==> (#[trigger] tables@[j])@ == loaded_tables(
                    all.map_values(|l: LoadedTable| l@),
                )[j],
    {
        let ghost k = it.index() as int;
        let ordinal: usize = tables.len() + 1;
        let shown = display_content(ViewState::Main, ordinal, item.name.as_str(), item.content);
        let table = Table::new(item.name, item.schema, shown);
        assert(all.map_values(|l: LoadedTable| l@)[k] == all[k]@);
        tables.push(table);
    }
    proof {
        assert(loaded.deep_view() =~= all.map_values(|l: LoadedTable| l@));
        assert(tables.deep_view() =~= loaded_tables(loaded.deep_view()));
    }
    tables
}

/// The descriptors of `tables` showing what `view` shows of `fetched`.
fn refresh_tables(
    tables: &Vec<Table>,
    view: ViewState,
    fetched: Vec<TableContent>,
) -> (shown: Vec<Table>)
    requires
        fetched@.len() == tables@.len(),
    ensures
        shown.deep_view() == refreshed(tables.deep_view(), view, fetched.deep_view()),
{
    let ghost all = fetched@;
    let ghost contents = fetched.deep_view();
    let total: usize = fetched.len();
    let mut shown: Vec<Table> = Vec::new();
    for item in it: fetched
        invariant
            it.seq() == all,
            all.len() == total,
            all.len() == tables@.len(),
            contents == all.map_values(|c: TableContent| c@),
            shown@.len() == it.index(),
            forall|j: int|
                0 <= j < it.index() ==> (#[trigger] shown@[j])@ == refreshed(
                    tables.deep_view(),
                    view,
                    contents,
                )[j],
    {
        let ghost k = it.index() as int;
        let i: usize = shown.len();
        let ordinal: usize = i + 1;
        let current = &tables[i];
        let content = display_content(view, ordinal, current.name(), item);
        let name = String::from_str(current.name());
        let schema = String::from_str(current.schema());
        let table = Table::new(name, schema, content);
        assert(contents[k] == all[k]@);
        assert(tables.deep_view()[k] == tables@[k]@);
        shown.push(table);
    }
    proof {
        assert(contents =~= all.map_values(|c: TableContent| c@));
        assert(shown.deep_view() =~= refreshed(tables.deep_view(), view, contents));
    }
    shown
}

impl Model {
    /// The engine before anything is loaded.
    pub fn new() -> (model: Model)
        ensures
            model@ == ModelView::initial(),
            model@.wf(),
    {
        let model = Model {
            tables: Vec::new(),
            selected_table_id: 0,
            cursor: 0,
            scroll_state: ScrollbarState::default(),
            active_column: 0,
            colors: TableColors::teal(),
            view_state: ViewState::Main,
            schema: false,
            column: false,
        };
        assert(model@.tables =~= Seq::empty());
        model
    }

    /// The length of the list that the cursor walks, if there is one.
    fn current_length(&self) -> (length: Option<usize>)
        ensures
            length is Some <==> self@.has_list(),
            length is Some ==> length->0 == self@.list_length(),
    {
        match self.view_state {
            ViewState::Main => Some(self.tables.len()),
            ViewState::Table => if self.selected_table_id < self.tables.len() {
                Some(self.tables[self.selected_table_id].rows().len())
            } else {
                None
            },
        }
    }

    fn move_to(&mut self, cursor: usize)
        ensures
            final(self)@ == old(self)@.moved_to(cursor as nat),
    {
        self.cursor = cursor;
        self.scroll_state = self.scroll_state.position(scroll_offset(cursor));
    }

    /// Moves the cursor to the next item of the current list, from the last
    /// one back to the first. With an empty list, or with none, the cursor
    /// rests on 0.
    pub fn next(&mut self)
        ensures
            final(self)@ == old(self)@.stepped_next(),
            old(self)@.wf() ==> final(self)@.wf(),
    {
        let cursor: usize = match self.current_length() {
            Some(length) => next_index(self.cursor, length),
            None => 0,
        };
        self.move_to(cursor);
    }

    /// Moves the cursor to the previous item of the current list, from the
    /// first one on to the last. With an empty list, or with none, the
    /// cursor rests on 0.
    pub fn previous(&mut self)
        ensures
            final(self)@ == old(self)@.stepped_previous(),
            old(self)@.wf() ==> final(self)@.wf(),
    {
        let cursor: usize = match self.current_length() {
            Some(length) => previous_index(self.cursor, length),
            None => 0,
        };
        self.move_to(cursor);
    }

    /// Installs the tables loaded at startup, each with the summary that the
    /// main view shows of it. `loaded` holds the result of one fetch for
    /// each table of the database, in the order of the table list. If any
    /// fetch failed, nothing changes and its first failure is returned.
    pub fn initialize(
        &mut self,
        loaded: Vec<Result<LoadedTable, DataError>>,
    ) -> (done: Result<(), DataError>)
        ensures
            done is Ok <==> all_ok(loaded@),
            match done {
                Ok(_) => final(self)@ == old(self)@.loaded(
                    fetched_values(loaded@).map_values(|l: LoadedTable| l@),
                ),
                Err(e) => *final(self) == *old(self) && first_failure(loaded@) == Some(e),
            },
            done is Ok && old(self)@ == ModelView::initial() ==> final(self)@.wf(),
    {
        let values = match collect_batch(loaded) {
            Ok(values) => values,
            Err(e) => {
                return Err(e);
            },
        };
        proof {
            assert(values.deep_view() =~= fetched_values(loaded@).map_values(|l: LoadedTable| l@));
        }
        let count: usize = values.len();
        self.tables = load_tables(values);
        self.scroll_state = ScrollbarState::new(scroll_bound(count));
        Ok(())
    }

    /// Drills into the table under the cursor: from the main view, with at
    /// least one table, to the table view of that table. `fetched` holds the
    /// result of one fetch of columns and rows for each table, in the order
    /// of the tables. If any fetch failed, nothing changes and its first
    /// failure is returned. From the table view, or without a table, nothing
    /// changes either and `fetched` is not looked at.
    pub fn switch_to_table_view(
        &mut self,
        fetched: Vec<Result<TableContent, DataError>>,
    ) -> (done: Result<(), DataError>)
        requires
            old(self)@.can_drill_in() ==> fetched@.len() == old(self)@.tables.len(),
        ensures
            done is Ok <==> !old(self)@.can_drill_in() || all_ok(fetched@),
            match done {
                Ok(_) => final(self)@ == old(self)@.drilled_in(
                    fetched_values(fetched@).map_values(|c: TableContent| c@),
                ),
                Err(e) => *final(self) == *old(self) && first_failure(fetched@) == Some(e),
            },
            !old(self)@.can_drill_in() ==> *final(self) == *old(self),
            old(self)@.wf() ==> final(self)@.wf(),
    {
        let in_main: bool = match self.view_state {
            ViewState::Main => true,
            ViewState::Table => false,
        };
        if !in_main || self.tables.len() == 0 {
            return Ok(());
        }
        let contents = match collect_batch(fetched) {
            Ok(contents) => contents,
            Err(e) => {
                return Err(e);
            },
        };
        proof {
            assert(contents.deep_view() =~= fetched_values(fetched@).map_values(
                |c: TableContent| c@,
            ));
        }
        let tables = refresh_tables(&self.tables, ViewState::Table, contents);
        let selected: usize = self.cursor;
        self.schema = false;
        self.column = false;
        self.active_column = 0;
        self.selected_table_id = selected;
        self.cursor = 0;
        self.view_state = ViewState::Table;
        self.tables = tables;
        if selected < self.tables.len() {
            let rows: usize = self.tables[selected].rows().len();
            self.scroll_state = ScrollbarState::new(scroll_bound(rows));
        }
        Ok(())
    }

    /// Drills out of the table view back to the main view. `fetched` holds
    /// the result of one fetch of columns and rows for each table, in the
    /// order of the tables. If any fetch failed, nothing changes and its
    /// first failure is returned. From the main view nothing changes either
    /// and `fetched` is not looked at.
    pub fn switch_to_main_view(
        &mut self,
        fetched: Vec<Result<TableContent, DataError>>,
    ) -> (done: Result<(), DataError>)
        requires
            old(self)@.can_drill_out() ==> fetched@.len() == old(self)@.tables.len(),
        ensures
            done is Ok <==> !old(self)@.can_drill_out() || all_ok(fetched@),
            match done {
                Ok(_) => final(self)@ == old(self)@.drilled_out(
                    fetched_values(fetched@).map_values(|c: TableContent| c@),
                ),
                Err(e) => *final(self) == *old(self) && first_failure(fetched@) == Some(e),
            },
            !old(self)@.can_drill_out() ==> *final(self) == *old(self),
            old(self)@.wf() ==> final(self)@.wf(),
    {
        match self.view_state {
            ViewState::Main => {
                return Ok(());
            },
            ViewState::Table => {},
        }
        let contents = match collect_batch(fetched) {
            Ok(contents) => contents,
            Err(e) => {
                return Err(e);
            },
        };
        proof {
            assert(contents.deep_view() =~= fetched_values(fetched@).map_values(
                |c: TableContent| c@,
            ));
        }
        let tables = refresh_tables(&self.tables, ViewState::Main, contents);
        let count: usize = self.tables.len();
        self.column = false;
        self.active_column = 0;
        self.selected_table_id = if count == 0 {
            0
        } else if self.cursor < count {
            self.cursor
        } else {
            count - 1
        };
        self.cursor = 0;
        self.view_state = ViewState::Main;
        self.tables = tables;
        self.scroll_state = ScrollbarState::new(scroll_bound(count));
        Ok(())
    }

    pub fn tables(&self) -> (tables: &[Table])
        ensures
            table_views(tables@) == self@.tables,
    {
        proof {
            assert(table_views(self.tables@) =~= self.tables.deep_view());
        }
        self.tables.as_slice()
    }

    /// The definition statement of the table under the cursor while the
    /// schema popup is on, of the selected table otherwise; `None` where no
    /// table stands at that index.
    pub fn table_schema(&self) -> (schema: Option<&str>)
        ensures
            match schema {
                Some(text) => self@.schema_index() < self@.tables.len() && text@
                    == self@.tables[self@.schema_index() as int].schema,
                None => self@.schema_index() >= self@.tables.len(),
            },
    {
        let index: usize = if self.schema {
            self.cursor
        } else {
            self.selected_table_id
        };
        if index < self.tables.len() {
            Some(self.tables[index].schema())
        } else {
            None
        }
    }

    /// The column names of the selected table, none without one.
    pub fn get_table_columns(&self) -> (columns: &[String])
        ensures
            self@.has_selected() ==> text_views(columns@) == self@.selected().columns,
            !self@.has_selected() ==> columns@.len() == 0,
    {
        if self.selected_table_id < self.tables.len() {
            let columns = self.tables[self.selected_table_id].columns();
            proof {
                assert(text_views(columns@) =~= columns.deep_view());
            }
            columns.as_slice()
        } else {
            &[]
        }
    }

    /// The rows of the selected table; a single empty row without one.
    pub fn get_table_rows(&self) -> (rows: Vec<&[Cell]>)
        ensures
            self@.has_selected() ==> {
                &&& rows@.len() == self@.selected().rows.len()
                &&& forall|i: int|
                    0 <= i < rows@.len() ==> cell_views((#[trigger] rows@[i])@)
                        == self@.selected().rows[i]
            },
            !self@.has_selected() ==> rows@.len() == 1 && rows@[0]@.len() == 0,
    {
        let mut rows: Vec<&[Cell]> = Vec::new();
        if self.selected_table_id < self.tables.len() {
            let all = self.tables[self.selected_table_id].rows();
            let mut i: usize = 0;
            while i < all.len()
                invariant
                    i <= all.len(),
                    rows@.len() == i,
                    forall|j: int|
                        0 <= j < i ==> cell_views((#[trigger] rows@[j])@) == all.deep_view()[j],
                decreases all.len() - i,
            {
                let row = all[i].as_slice();
                proof {
                    assert(cell_views(row@) =~= all.deep_view()[i as int]);
                }
                rows.push(row);
                i += 1;
            }
        } else {
            rows.push(&[]);
        }
        rows
    }

    /// The width hint that the renderer uses to widen the active column.
    pub fn longest_in_column(&self) -> (width: u16)
        ensures
            width == self@.longest_in_column(),
    {
        if self.selected_table_id >= self.tables.len() {
            return 0;
        }
        let table = &self.tables[self.selected_table_id];
        let columns = table.columns();
        let column: usize = self.active_column;
        if column >= columns.len() {
            return 0;
        }
        let rows = table.rows();
        let ghost shown = rows.deep_view();
        let mut longest: usize = 0;
        let mut i: usize = 0;
        while i < rows.len()
            invariant
                i <= rows.len(),
                shown == rows.deep_view(),
                longest == longest_cell(shown.take(i as int), column as int),
            decreases rows.len() - i,
        {
            proof {
                assert(shown.take(i + 1).drop_last() =~= shown.take(i as int));
                assert(shown.take(i + 1).last() == shown[i as int]);
            }
            let row = &rows[i];
            proof {
                assert(shown[i as int] =~= row.deep_view());
                assert(shown[i as int].len() == row@.len());
            }
            if column < row.len() {
                let text = row[column].as_str();
                proof {
                    assert(shown[i as int][column as int] == row@[column as int]@);
                    assert(text@ == shown[i as int][column as int].text);
                }
                let width: usize = text.as_bytes().len();
                if width > longest {
                    longest = width;
                }
            }
            i += 1;
        }
        proof {
            assert(shown.take(rows.len() as int) =~= shown);
            assert(columns.deep_view()[column as int] == columns@[column as int]@);
        }
        let title = columns[column].as_str();
        let header: usize = title.as_bytes().len();
        if header > longest {
            longest = header;
        }
        if longest >= 65535 {
            return 65535;
        }
        let hint: usize = (longest * 11 + 9) / 10;
        if hint >= 65535 {
            65535
        } else {
            hint as u16
        }
    }

    pub fn view_state(&self) -> (view: ViewState)
        ensures
            view == self@.view_state,
    {
        self.view_state
    }

    pub fn colors(&self) -> (colors: &TableColors)
        ensures
            *colors == self@.colors,
    {
        &self.colors
    }

    pub fn selected_table_id(&self) -> (id: usize)
        ensures
            id == self@.selected_table_id,
    {
        self.selected_table_id
    }

    /// The index of the item that the cursor is on.
    pub fn cursor(&self) -> (cursor: usize)
        ensures
            cursor == self@.cursor,
    {
        self.cursor
    }

    /// The selection for the table widget: the cursor.
    pub fn state(&self) -> (state: TableState)
        ensures
            state.selected() == Some(self@.cursor as usize),
            self@.cursor <= usize::MAX,
    {
        TableState::with_selected(Some(self.cursor))
    }

    /// The scrollbar's indicator.
    pub fn scroll_state(&self) -> (state: &ScrollbarState)
        ensures
            state.content_length() == self@.scroll_length,
            state.get_position() == self@.scroll_position,
    {
        &self.scroll_state
    }

    pub fn is_schema_enabled(&self) -> (enabled: bool)
        ensures
            enabled == self@.schema,
    {
        self.schema
    }

    /// Shows or hides the schema popup. In the table view it does nothing.
    pub fn toggle_schema(&mut self)
        ensures
            final(self)@ == old(self)@.toggled_schema(),
            old(self)@.wf() ==> final(self)@.wf(),
    {
        match self.view_state {
            ViewState::Main => {
                self.schema = !self.schema;
            },
            ViewState::Table => {},
        }
    }

    pub fn is_column_enabled(&self) -> (enabled: bool)
        ensures
            enabled == self@.column,
    {
        self.column
    }

    /// Switches the column highlight on or off.
    pub fn toggle_column(&mut self)
        ensures
            final(self)@ == old(self)@.toggled_column(),
            old(self)@.wf() ==> final(self)@.wf(),
    {
        self.column = !self.column;
    }

    pub fn active_column(&self) -> (column: usize)
        ensures
            column == self@.active_column,
    {
        self.active_column
    }

    /// The number of columns of the selected table, 0 without one.
    fn current_columns(&self) -> (count: usize)
        ensures
            count == self@.column_count(),
    {
        if self.selected_table_id < self.tables.len() {
            self.tables[self.selected_table_id].columns().len()
        } else {
            0
        }
    }

    /// Highlights the next column, if the highlight is on.
    pub fn next_column(&mut self)
        ensures
            final(self)@ == old(self)@.stepped_next_column(),
            old(self)@.wf() ==> final(self)@.wf(),
    {
        if self.column {
            let count: usize = self.current_columns();
            if count > 0 {
                let active: usize = self.active_column;
                proof {
                    lemma_add_mod_noop(active as int, 1, count as int);
                    if count > 1 {
                        lemma_small_mod(1, count as nat);
                    }
                }
                self.active_column = ((active % count) + 1) % count;
            }
        }
    }

    /// Highlights the previous column, if the highlight is on.
    pub fn previous_column(&mut self)
        ensures
            final(self)@ == old(self)@.stepped_previous_column(),
            old(self)@.wf() ==> final(self)@.wf(),
    {
        if self.column {
            let count: usize = self.current_columns();
            self.active_column = previous_index(self.active_column, count);
        }
    }

    /// The key help for the footer.
    pub fn get_info_text(&self) -> (text: String)
        ensures
            text@ == info_text(self@.view_state, self@.column),
    {
        let mut text = String::from_str(
            "(Esc) quit | (↑) move up | (↓) move down | (⇧ S) toggle column select",
        );
        match self.view_state {
            ViewState::Main => {
                text.append(" | (Space) toggle schema (→) table view");
            },
            ViewState::Table => {
                text.append(" | (←) main view");
            },
        }
        if self.column {
            text.append(" | (⇧ ←) previous column | (⇧ →) next column");
        }
        assert(text@ =~= info_text(self@.view_state, self@.column));
        text
    }
}

} // verus!
