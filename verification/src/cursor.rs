//! Cursor and pagination arithmetic: pure functions of an index and a length.

use vstd::prelude::*;

verus! {

/// Height of one rendered row, in terminal lines.
pub const ITEM_HEIGHT: usize = 4;

/// Number of rows in one pagination window.
pub const MAX_TABLE_ITEMS: usize = 100;

/// An index into a list of `length` items: below the length, or at rest on 0
/// when the list is empty.
pub open spec fn index_ok(index: nat, length: nat) -> bool {
    index < length || (index == 0 && length == 0)
}

/// The index after `index` in a list of `length` items, wrapping to 0 behind
/// the last one.
pub open spec fn spec_next_index(index: nat, length: nat) -> nat {
    if index + 1 >= length {
        0
    } else {
        index + 1
    }
}

/// The index before `index` in a list of `length` items, wrapping from 0 to
/// the last one; 0 stays 0 in an empty list.
pub open spec fn spec_previous_index(index: nat, length: nat) -> nat {
    if index == 0 {
        if length == 0 {
            0
        } else {
            (length - 1) as nat
        }
    } else {
        (index - 1) as nat
    }
}

/// `index` lines of `ITEM_HEIGHT`, capped at the largest `usize`.
pub open spec fn spec_scroll_offset(index: nat) -> nat {
    if index * ITEM_HEIGHT <= usize::MAX {
        (index * ITEM_HEIGHT) as nat
    } else {
        usize::MAX as nat
    }
}

/// The scroll offset of the last item of a list of `count` items, 0 for an
/// empty list.
pub open spec fn spec_scroll_bound(count: nat) -> nat {
    if count == 0 {
        0
    } else {
        spec_scroll_offset((count - 1) as nat)
    }
}

/// The pagination window that holds `cursor`.
pub open spec fn spec_page_of(cursor: nat) -> nat {
    cursor / (MAX_TABLE_ITEMS as nat)
}

/// The position of `cursor` inside its pagination window.
pub open spec fn spec_index_in_page(cursor: nat) -> nat {
    cursor % (MAX_TABLE_ITEMS as nat)
}

/// The first row of the window that holds `cursor`, limited to `rows`.
pub open spec fn spec_window_start(cursor: nat, rows: nat) -> nat {
    if spec_page_of(cursor) * MAX_TABLE_ITEMS <= rows {
        (spec_page_of(cursor) * MAX_TABLE_ITEMS) as nat
    } else {
        rows
    }
}

/// One past the last row of the window that holds `cursor`, limited to `rows`.
pub open spec fn spec_window_end(cursor: nat, rows: nat) -> nat {
    if spec_window_start(cursor, rows) + MAX_TABLE_ITEMS <= rows {
        (spec_window_start(cursor, rows) + MAX_TABLE_ITEMS) as nat
    } else {
        rows
    }
}

pub fn next_index(index: usize, length: usize) -> (next: usize)
    ensures
        next == spec_next_index(index as nat, length as nat),
{
    if length == 0 || index >= length - 1 {
        0
    } else {
        index + 1
    }
}

pub fn previous_index(index: usize, length: usize) -> (previous: usize)
    ensures
        previous == spec_previous_index(index as nat, length as nat),
{
    if index == 0 {
        if length == 0 {
            0
        } else {
            length - 1
        }
    } else {
        index - 1
    }
}

pub fn scroll_offset(index: usize) -> (offset: usize)
    ensures
        offset == spec_scroll_offset(index as nat),
{
    if index > usize::MAX / ITEM_HEIGHT {
        usize::MAX
    } else {
        index * ITEM_HEIGHT
    }
}

pub fn scroll_bound(count: usize) -> (bound: usize)
    ensures
        bound == spec_scroll_bound(count as nat),
{
    if count == 0 {
        0
    } else {
        scroll_offset(count - 1)
    }
}

pub fn page_of(cursor: usize) -> (page: usize)
    ensures
        page == spec_page_of(cursor as nat),
{
    cursor / MAX_TABLE_ITEMS
}

pub fn index_in_page(cursor: usize) -> (index: usize)
    ensures
        index == spec_index_in_page(cursor as nat),
        index < MAX_TABLE_ITEMS,
{
    cursor % MAX_TABLE_ITEMS
}

pub fn window_start(cursor: usize, rows: usize) -> (start: usize)
    ensures
        start == spec_window_start(cursor as nat, rows as nat),
        start <= rows,
{
    let page: usize = page_of(cursor);
    let first: usize = page * MAX_TABLE_ITEMS;
    if first <= rows {
        first
    } else {
        rows
    }
}

pub fn window_end(cursor: usize, rows: usize) -> (end: usize)
    ensures
        end == spec_window_end(cursor as nat, rows as nat),
        spec_window_start(cursor as nat, rows as nat) <= end <= rows,
{
    let start: usize = window_start(cursor, rows);
    if rows - start >= MAX_TABLE_ITEMS {
        start + MAX_TABLE_ITEMS
    } else {
        rows
    }
}

/// Stepping forward and then back leaves an index of a non-empty list where
/// it was.
pub proof fn lemma_next_then_previous(index: nat, length: nat)
    requires
        index < length,
    ensures
        spec_previous_index(spec_next_index(index, length), length) == index,
{
}

/// Stepping back and then forward leaves an index of a non-empty list where
/// it was.
pub proof fn lemma_previous_then_next(index: nat, length: nat)
    requires
        index < length,
    ensures
        spec_next_index(spec_previous_index(index, length), length) == index,
{
}

/// Stepping forward from the last index of a non-empty list gives 0, and
/// stepping back from 0 gives the last index.
pub proof fn lemma_wrap_around(length: nat)
    requires
        length > 0,
    ensures
        spec_next_index((length - 1) as nat, length) == 0,
        spec_previous_index(0, length) == length - 1,
{
}

/// In an empty list both steps leave the index at rest on 0.
pub proof fn lemma_empty_list_steps()
    ensures
        spec_next_index(0, 0) == 0,
        spec_previous_index(0, 0) == 0,
{
}

/// Both steps keep a valid index valid.
pub proof fn lemma_steps_keep_index_ok(index: nat, length: nat)
    requires
        index_ok(index, length),
    ensures
        index_ok(spec_next_index(index, length), length),
        index_ok(spec_previous_index(index, length), length),
{
}

/// The scroll offset of a valid index never passes the bound of its list.
pub proof fn lemma_offset_within_bound(index: nat, length: nat)
    requires
        index_ok(index, length),
    ensures
        spec_scroll_offset(index) <= spec_scroll_bound(length),
{
    if length > 0 {
        assert(index * ITEM_HEIGHT <= (length - 1) * ITEM_HEIGHT) by (nonlinear_arith)
            requires
                index <= length - 1,
        ;
    }
}

/// A cursor inside a list lies inside its own pagination window, at the
/// position that the window shows as selected.
pub proof fn lemma_cursor_in_window(cursor: nat, rows: nat)
    requires
        cursor < rows,
    ensures
        spec_window_start(cursor, rows) == spec_page_of(cursor) * MAX_TABLE_ITEMS,
        spec_window_start(cursor, rows) + spec_index_in_page(cursor) == cursor,
        spec_window_start(cursor, rows) <= cursor < spec_window_end(cursor, rows),
        spec_window_end(cursor, rows) - spec_window_start(cursor, rows) <= MAX_TABLE_ITEMS,
{
}

} // verus!
