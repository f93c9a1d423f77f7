//! What one frame of the user interface shows, computed from the engine's
//! state and left for a terminal backend to paint.

use crate::cell::Cell;
use crate::cell::CellView;
use crate::cursor::index_in_page;
use crate::cursor::spec_index_in_page;
use crate::cursor::spec_window_end;
use crate::cursor::spec_window_start;
use crate::cursor::window_end;
use crate::cursor::window_start;
use crate::model::cell_views;
use crate::model::info_text;
use crate::model::table_views;
use crate::model::text_views;
use crate::model::Model;
use crate::model::ModelView;
use crate::model::ScrollbarState;
use crate::table::overview_header;
use crate::table::Table;
use crate::table::TableView;
use crate::table::ViewState;
use vstd::prelude::*;

verus! {

/// A rectangle of the terminal, in character cells.
#[derive(Debug, Clone, Copy, PartialEq, Eq, Structural)]
pub struct Area {
    pub x: u16,
    pub y: u16,
    pub width: u16,
    pub height: u16,
}

/// One row of the table widget: its cells, and whether it takes the
/// alternate background.
#[derive(Debug)]
pub struct RowFrame<'a> {
    pub cells: &'a [Cell],
    pub alternate: bool,
}

/// The table widget of one frame: header, visible rows and the position of
/// the selected row among them.
#[derive(Debug)]
pub struct TableFrame<'a> {
    pub header: &'a [String],
    pub rows: Vec<RowFrame<'a>>,
    pub selected: Option<usize>,
}

/// The schema popup of one frame.
#[derive(Debug)]
pub struct PopupFrame<'a> {
    pub area: Area,
    pub content: &'a str,
}

/// Everything that one frame shows.
#[derive(Debug)]
pub struct Screen<'a> {
    pub table: TableFrame<'a>,
    pub scrollbar: ScrollbarState,
    pub footer: String,
    pub popup: Option<PopupFrame<'a>>,
}

/// The mathematical value of a `RowFrame`.
pub struct RowView {
    pub cells: Seq<CellView>,
    pub alternate: bool,
}

/// The mathematical value of a `TableFrame`.
pub struct FrameView {
    pub header: Seq<Seq<char>>,
    pub rows: Seq<RowView>,
    pub selected: Option<nat>,
}

/// The mathematical value of a `PopupFrame`.
pub struct PopupView {
    pub area: Area,
    pub content: Seq<char>,
}

/// The mathematical value of a `Screen`.
pub struct ScreenView {
    pub table: FrameView,
    pub scroll_length: nat,
    pub scroll_position: nat,
    pub footer: Seq<char>,
    pub popup: Option<PopupView>,
}

impl<'a> View for RowFrame<'a> {
    type V = RowView;

    open spec fn view(&self) -> RowView {
        RowView { cells: cell_views(self.cells@), alternate: self.alternate }
    }
}

impl<'a> View for TableFrame<'a> {
    type V = FrameView;

    open spec fn view(&self) -> FrameView {
        FrameView {
            header: text_views(self.header@),
            rows: Seq::new(self.rows@.len(), |i: int| self.rows@[i]@),
            selected: match self.selected {
                Some(index) => Some(index as nat),
                None => None,
            },
        }
    }
}

impl<'a> View for PopupFrame<'a> {
    type V = PopupView;

    open spec fn view(&self) -> PopupView {
        PopupView { area: self.area, content: self.content@ }
    }
}

impl<'a> View for Screen<'a> {
    type V = ScreenView;

    open spec fn view(&self) -> ScreenView {
        ScreenView {
            table: self.table@,
            scroll_length: self.scrollbar.content_length() as nat,
            scroll_position: self.scrollbar.get_position() as nat,
            footer: self.footer@,
            popup: match self.popup {
                Some(popup) => Some(popup@),
                None => None,
            },
        }
    }
}

/// The rows of all tables, one table after the other.
pub open spec fn flat_rows(tables: Seq<TableView>) -> Seq<Seq<CellView>>
    decreases tables.len(),
{
    if tables.len() == 0 {
        Seq::empty()
    } else {
        flat_rows(tables.drop_last()) + tables.last().rows
    }
}

/// `rows` as rows of the widget, where `first` is the position of the first
/// of them in its list: rows at odd positions take the alternate background.
pub open spec fn striped(rows: Seq<Seq<CellView>>, first: nat) -> Seq<RowView> {
    Seq::new(rows.len(), |i: int| RowView { cells: rows[i], alternate: (first + i) % 2 == 1 })
}

/// The pagination window of `rows` that holds `cursor`.
pub open spec fn window(rows: Seq<Seq<CellView>>, cursor: nat) -> Seq<Seq<CellView>> {
    rows.subrange(
        spec_window_start(cursor, rows.len()) as int,
        spec_window_end(cursor, rows.len()) as int,
    )
}

/// The popup over a terminal of the given size: the middle half of it in
/// both directions.
pub open spec fn spec_popup_area(width: u16, height: u16) -> Area {
    Area { x: width / 4, y: height / 4, width: width / 2, height: height / 2 }
}

impl ModelView {
    /// The table widget. The header is that of the selected table. The main
    /// view shows the rows of all tables, the table view the pagination
    /// window of the selected table that holds the cursor, with the cursor's
    /// position inside the window as the selected row.
    pub open spec fn frame(self) -> FrameView {
        FrameView {
            header: if self.has_selected() {
                self.selected().columns
            } else {
                Seq::empty()
            },
            rows: match self.view_state {
                ViewState::Main => striped(flat_rows(self.tables), 0),
                ViewState::Table => if self.has_selected() {
                    striped(
                        window(self.selected().rows, self.cursor),
                        spec_window_start(self.cursor, self.selected().rows.len()),
                    )
                } else {
                    Seq::empty()
                },
            },
            selected: match self.view_state {
                ViewState::Main => Some(self.cursor),
                ViewState::Table => Some(spec_index_in_page(self.cursor)),
            },
        }
    }

    /// The schema popup over a terminal of the given size: shown while the
    /// popup is on and a table stands under the cursor, with the definition
    /// of that table.
    pub open spec fn popup(self, width: u16, height: u16) -> Option<PopupView> {
        if self.schema && self.cursor < self.tables.len() {
            Some(
                PopupView {
                    area: spec_popup_area(width, height),
                    content: self.tables[self.cursor as int].schema,
                },
            )
        } else {
            None
        }
    }

    /// Everything that one frame shows on a terminal of the given size.
    pub open spec fn screen(self, width: u16, height: u16) -> ScreenView {
        ScreenView {
            table: self.frame(),
            scroll_length: self.scroll_length,
            scroll_position: self.scroll_position,
            footer: info_text(self.view_state, self.column),
            popup: self.popup(width, height),
        }
    }
}

/// The area of the schema popup over a terminal of the given size.
pub fn popup_area(width: u16, height: u16) -> (area: Area)
    ensures
        area == spec_popup_area(width, height),
{
    Area { x: width / 4, y: height / 4, width: width / 2, height: height / 2 }
}

/// The renderer's side of the engine.
#[derive(Debug, Default)]
pub struct UserInterface {}

impl UserInterface {
    pub fn new() -> UserInterface {
        UserInterface {  }
    }

    /// Computes what one frame shows of `model` on a terminal of the given
    /// size.
    pub fn run<'a>(&self, width: u16, height: u16, model: &'a Model) -> (screen: Screen<'a>)
        ensures
            screen@ == model@.screen(width, height),
    {
        Screen {
            table: self.render_table(model),
            scrollbar: *model.scroll_state(),
            footer: model.get_info_text(),
            popup: self.render_popup(width, height, model),
        }
    }

    /// The table widget of one frame.
    pub fn render_table<'a>(&self, model: &'a Model) -> (frame: TableFrame<'a>)
        ensures
            frame@ == model@.frame(),
    {
        let header = model.get_table_columns();
        let tables = model.tables();
        let cursor: usize = model.cursor();
        let mut rows: Vec<RowFrame<'a>> = Vec::new();
        let selected: usize;
        match model.view_state() {
            ViewState::Main => {
                selected = cursor;
                let mut odd: bool = false;
                let mut t: usize = 0;
                while t < tables.len()
                    invariant
                        t <= tables.len(),
                        table_views(tables@) == model@.tables,
                        odd == (rows@.len() % 2 == 1),
                        rows@.len() == flat_rows(model@.tables.take(t as int)).len(),
                        forall|k: int|
                            0 <= k < rows@.len() ==> (#[trigger] rows@[k])@ == striped(
                                flat_rows(model@.tables.take(t as int)),
                                0,
                            )[k],
                    decreases tables.len() - t,
                {
                    let table_rows = tables[t].rows();
                    let ghost done = flat_rows(model@.tables.take(t as int));
                    let ghost these = model@.tables[t as int].rows;
                    proof {
                        assert(model@.tables[t as int] == tables@[t as int]@);
                        assert(these == table_rows.deep_view());
                        assert(model@.tables.take(t + 1).drop_last() =~= model@.tables.take(
                            t as int,
                        ));
                        assert(model@.tables.take(t + 1).last() == model@.tables[t as int]);
                        assert(flat_rows(model@.tables.take(t + 1)) == done + these);
                    }
                    let mut r: usize = 0;
                    while r < table_rows.len()
                        invariant
                            r <= table_rows.len(),
                            these == table_rows.deep_view(),
                            odd == (rows@.len() % 2 == 1),
                            rows@.len() == done.len() + r,
                            forall|k: int|
                                0 <= k < rows@.len() ==> (#[trigger] rows@[k])@ == striped(
                                    done + these,
                                    0,
                                )[k],
                        decreases table_rows.len() - r,
                    {
                        let cells = table_rows[r].as_slice();
                        proof {
                            assert(cell_views(cells@) =~= these[r as int]);
                            assert((done + these)[done.len() + r] == these[r as int]);
                        }
                        rows.push(RowFrame { cells, alternate: odd });
                        odd = !odd;
                        r += 1;
                    }
                    t += 1;
                }
                proof {
                    assert(model@.tables.take(tables.len() as int) =~= model@.tables);
                }
            },
            ViewState::Table => {
                selected = index_in_page(cursor);
                let id: usize = model.selected_table_id();
                if id < tables.len() {
                    let table_rows = tables[id].rows();
                    let ghost all = model@.selected().rows;
                    proof {
                        assert(model@.tables[id as int] == tables@[id as int]@);
                        assert(all == table_rows.deep_view());
                    }
                    let start: usize = window_start(cursor, table_rows.len());
                    let end: usize = window_end(cursor, table_rows.len());
                    let mut i: usize = start;
                    while i < end
                        invariant
                            start <= i <= end <= table_rows.len(),
                            all == table_rows.deep_view(),
                            rows@.len() == i - start,
                            forall|k: int|
                                0 <= k < rows@.len() ==> (#[trigger] rows@[k])@ == striped(
                                    all.subrange(start as int, end as int),
                                    start as nat,
                                )[k],
                        decreases end - i,
                    {
                        let cells = table_rows[i].as_slice();
                        proof {
                            assert(cell_views(cells@) =~= all[i as int]);
                        }
                        rows.push(RowFrame { cells, alternate: i % 2 == 1 });
                        i += 1;
                    }
                }
            },
        }
        let frame = TableFrame { header, rows, selected: Some(selected) };
        proof {
            assert(frame@.rows =~= model@.frame().rows);
            assert(frame@.header =~= model@.frame().header);
        }
        frame
    }

    /// The schema popup of one frame, if it is shown.
    pub fn render_popup<'a>(
        &self,
        width: u16,
        height: u16,
        model: &'a Model,
    ) -> (popup: Option<PopupFrame<'a>>)
        ensures
            match popup {
                Some(shown) => model@.popup(width, height) == Some(shown@),
                None => model@.popup(width, height) is None,
            },
    {
        if !model.is_schema_enabled() {
            return None;
        }
        match model.table_schema() {
            Some(content) => Some(PopupFrame { area: popup_area(width, height), content }),
            None => None,
        }
    }
}

/// In a valid state the main view shows one row for each table, under the
/// summary header whenever there is a table.
pub proof fn lemma_overview_frame(m: ModelView)
    requires
        m.wf(),
        m.view_state == ViewState::Main,
    ensures
        m.frame().rows.len() == m.tables.len(),
        m.tables.len() > 0 ==> m.frame().header == overview_header(),
        m.frame().selected == Some(m.cursor),
{
    lemma_flat_rows_of_single_rows(m.tables);
}

/// Tables of one row each have as many rows altogether as there are tables.
pub proof fn lemma_flat_rows_of_single_rows(tables: Seq<TableView>)
    requires
        forall|i: int| 0 <= i < tables.len() ==> (#[trigger] tables[i]).rows.len() == 1,
    ensures
        flat_rows(tables).len() == tables.len(),
    decreases tables.len(),
{
    if tables.len() > 0 {
        let rest = tables.drop_last();
        assert forall|i: int| 0 <= i < rest.len() implies (#[trigger] rest[i]).rows.len() == 1 by {
            assert(rest[i] == tables[i]);
        }
        lemma_flat_rows_of_single_rows(rest);
    }
}

/// In a valid state the table view shows at most one window of rows, and the
/// selected row of the window is the row that the cursor is on.
pub proof fn lemma_detail_frame(m: ModelView)
    requires
        m.wf(),
        m.view_state == ViewState::Table,
        m.list_length() > 0,
    ensures
        m.frame().rows.len() <= crate::cursor::MAX_TABLE_ITEMS,
        m.frame().selected == Some(spec_index_in_page(m.cursor)),
        spec_index_in_page(m.cursor) < m.frame().rows.len(),
        m.frame().rows[spec_index_in_page(m.cursor) as int].cells == m.selected().rows[m.cursor as int],
{
    crate::cursor::lemma_cursor_in_window(m.cursor, m.selected().rows.len());
}

} // verus!
