//! What holds of the engine's transitions taken together.

use crate::cursor::lemma_next_then_previous;
use crate::cursor::lemma_offset_within_bound;
use crate::cursor::lemma_previous_then_next;
use crate::cursor::spec_next_index;
use crate::cursor::spec_previous_index;
use crate::cursor::spec_scroll_bound;
use crate::cursor::spec_scroll_offset;
use crate::model::loaded_tables;
use crate::model::refreshed;
use crate::model::spec_next_column;
use crate::model::ModelView;
use crate::table::overview_header;
use crate::table::overview_row;
use crate::table::ContentView;
use crate::table::LoadedView;
use crate::table::ViewState;
use vstd::prelude::*;

verus! {

/// What the data source returned for each of the loaded tables.
pub open spec fn loaded_contents(loaded: Seq<LoadedView>) -> Seq<ContentView> {
    Seq::new(loaded.len(), |i: int| loaded[i].content)
}

/// After the load at startup the engine is valid and in the main view, the
/// cursor walks as many summary rows as tables were loaded, and every table
/// shows the summary header above the one row that sums it up.
pub proof fn lemma_startup_overview(loaded: Seq<LoadedView>)
    ensures
        ({
            let m = ModelView::initial().loaded(loaded);
            &&& m.wf()
            &&& m.view_state == ViewState::Main
            &&& m.tables.len() == loaded.len()
            &&& m.list_length() == loaded.len()
            &&& forall|i: int|
                0 <= i < loaded.len() ==> {
                    &&& (#[trigger] m.tables[i]).columns == overview_header()
                    &&& m.tables[i].name == loaded[i].name
                    &&& m.tables[i].schema == loaded[i].schema
                    &&& m.tables[i].rows == seq![
                        overview_row(
                            (i + 1) as nat,
                            loaded[i].name,
                            loaded[i].content.columns.len(),
                            loaded[i].content.rows.len(),
                        ),
                    ]
                }
        }),
{
}

/// The summaries installed at startup are those that a refresh of the main
/// view makes of the same data.
pub proof fn lemma_loaded_is_refreshed(loaded: Seq<LoadedView>)
    ensures
        loaded_tables(loaded) == refreshed(
            loaded_tables(loaded),
            ViewState::Main,
            loaded_contents(loaded),
        ),
{
    assert(loaded_tables(loaded) =~= refreshed(
        loaded_tables(loaded),
        ViewState::Main,
        loaded_contents(loaded),
    ));
}

/// A round trip restores the main view: where the tables of the main view
/// show what was made of `source`, drilling into a table, whatever the
/// fetch for the table view returned, and drilling out again while the data
/// source still returns `source`, gives back the same tables.
pub proof fn lemma_round_trip(m: ModelView, source: Seq<ContentView>, detail: Seq<ContentView>)
    requires
        m.view_state == ViewState::Main,
        m.tables == refreshed(m.tables, ViewState::Main, source),
    ensures
        m.drilled_in(detail).drilled_out(source).tables == m.tables,
        m.drilled_in(detail).drilled_out(source).view_state == ViewState::Main,
{
    if m.can_drill_in() {
        let inner = refreshed(m.tables, ViewState::Table, detail);
        assert(refreshed(inner, ViewState::Main, source) =~= refreshed(
            m.tables,
            ViewState::Main,
            source,
        ));
    }
}

/// The round trip started from the state that the load at startup leaves.
pub proof fn lemma_round_trip_after_load(loaded: Seq<LoadedView>, detail: Seq<ContentView>)
    ensures
        ({
            let m = ModelView::initial().loaded(loaded);
            m.drilled_in(detail).drilled_out(loaded_contents(loaded)).tables == m.tables
        }),
{
    lemma_loaded_is_refreshed(loaded);
    lemma_round_trip(ModelView::initial().loaded(loaded), loaded_contents(loaded), detail);
}

/// On a valid state a step forward and a step back undo each other, in
/// either order: they leave the cursor, and with it the whole state, where
/// it was.
pub proof fn lemma_steps_undo_each_other(m: ModelView)
    requires
        m.wf(),
    ensures
        m.stepped_next().stepped_previous() == m,
        m.stepped_previous().stepped_next() == m,
{
    if m.list_length() > 0 {
        lemma_next_then_previous(m.cursor, m.list_length());
        lemma_previous_then_next(m.cursor, m.list_length());
    }
    assert(m.stepped_next().list_length() == m.list_length());
    assert(m.stepped_previous().list_length() == m.list_length());
}

/// On a valid state the scrollbar's position is the cursor's offset in
/// lines and never passes the length of the content.
pub proof fn lemma_scroll_within_bound(m: ModelView)
    requires
        m.wf(),
    ensures
        m.scroll_position == spec_scroll_offset(m.cursor),
        m.scroll_length == spec_scroll_bound(m.list_length()),
        m.scroll_position <= m.scroll_length,
{
    lemma_offset_within_bound(m.cursor, m.list_length());
}

/// On a valid state every index that has something to point at points
/// inside its list: the cursor into the current list, the selected table
/// into the tables, the active column into the columns of the selected
/// table. An index with nothing to point at rests on 0.
pub proof fn lemma_indices_in_range(m: ModelView)
    requires
        m.wf(),
    ensures
        m.list_length() > 0 ==> m.cursor < m.list_length(),
        m.list_length() == 0 ==> m.cursor == 0,
        m.tables.len() > 0 ==> m.selected_table_id < m.tables.len(),
        m.tables.len() == 0 ==> m.selected_table_id == 0,
        m.column_count() > 0 ==> m.active_column < m.column_count(),
        m.column_count() == 0 ==> m.active_column == 0,
        m.view_state == ViewState::Table ==> m.has_selected(),
        m.schema ==> m.view_state == ViewState::Main,
{
}

/// A step forward from the last item lands on the first, and a step back
/// from the first lands on the last.
pub proof fn lemma_steps_wrap(m: ModelView)
    requires
        m.list_length() > 0,
    ensures
        m.cursor == m.list_length() - 1 ==> m.stepped_next().cursor == 0,
        m.cursor == 0 ==> m.stepped_previous().cursor == m.list_length() - 1,
{
}

/// Without tables nothing moves: both steps leave the state as it is, and
/// so does a drill into a table, whatever was fetched for it.
pub proof fn lemma_empty_database(m: ModelView, fetched: Seq<ContentView>)
    requires
        m.wf(),
        m.tables.len() == 0,
    ensures
        m.view_state == ViewState::Main,
        m.cursor == 0,
        m.stepped_next() == m,
        m.stepped_previous() == m,
        m.drilled_in(fetched) == m,
{
}

/// Among `count` columns the step back from the first column lands on the
/// last, and the step forward from the last lands on the first.
pub proof fn lemma_columns_wrap(count: nat)
    requires
        count > 0,
    ensures
        spec_previous_index(0, count) == count - 1,
        spec_next_column((count - 1) as nat, count) == 0,
{
    assert(((count - 1 + 1) as int) % (count as int) == 0) by (nonlinear_arith)
        requires
            count > 0,
    ;
}

/// On a valid state the step to the next column is the wrapping step of an
/// index among the columns.
pub proof fn lemma_next_column_is_next_index(active: nat, count: nat)
    requires
        active < count,
    ensures
        spec_next_column(active, count) == spec_next_index(active, count),
{
    if active + 1 < count {
        vstd::arithmetic::div_mod::lemma_small_mod((active + 1) as nat, count);
    } else {
        assert(((active + 1) as int) % (count as int) == 0) by (nonlinear_arith)
            requires
                active + 1 == count,
                count > 0,
        ;
    }
}

/// The transitions keep the engine valid.
pub proof fn lemma_transitions_keep_wf(m: ModelView, fetched: Seq<ContentView>)
    requires
        m.wf(),
        fetched.len() == m.tables.len(),
    ensures
        m.stepped_next().wf(),
        m.stepped_previous().wf(),
        m.drilled_in(fetched).wf(),
        m.drilled_out(fetched).wf(),
        m.toggled_schema().wf(),
        m.toggled_column().wf(),
        m.stepped_next_column().wf(),
        m.stepped_previous_column().wf(),
{
    if m.column && m.column_count() > 0 {
        lemma_next_column_is_next_index(m.active_column, m.column_count());
    }
}

} // verus!
