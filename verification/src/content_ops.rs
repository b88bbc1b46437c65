//! Loading and leaving query results, and the sort, filter and search
//! operations of the content panel.
use vstd::prelude::*;
use crate::content::{rows_len, selecting, ContentPanel, ContentView, QueryResultData, SortOrder};
use crate::dup::Duplicate;
use crate::rows::{
    filter_hits, filter_rows, index_range, indices_within, keys_view, range_vec, search_hits,
    search_rows, sort_positions, CellNumber, SortKey,
};
use crate::strings::{chars_of, pop_char, push_char};
use crate::ui::TableState;

verus! {

broadcast use vstd::std_specs::vec::group_vec_axioms;

/// The selection of a freshly shown result: the first row if there is one.
pub open spec fn first_row_state(q: QueryResultData) -> TableState {
    if q.rows@.len() > 0 {
        TableState { offset: 0, selected: Some(0) }
    } else {
        TableState { offset: 0, selected: None }
    }
}

impl ContentPanel {
    /// Sort, filter and search are cleared (dialog cursors kept), the first
    /// page is shown, and no cell readings are recorded.
    pub open spec fn result_reset(&self, o: &Self) -> bool {
        &&& self.sort_indices is None
        &&& self.sort_order == SortOrder::Unsorted
        &&& self.sort_column_index is None
        &&& !self.sort_mode_active
        &&& self.sort_modal_selection == o.sort_modal_selection
        &&& self.filter_indices is None
        &&& self.filter_column_index is None
        &&& self.filter_text@.len() == 0
        &&& !self.filter_mode_active
        &&& self.filter_modal_step == 0
        &&& self.filter_modal_selection == o.filter_modal_selection
        &&& !self.result_search_active
        &&& self.result_search_text@.len() == 0
        &&& self.result_search_indices is None
        &&& self.result_page == 0
        &&& self.rows_per_page == o.rows_per_page
        &&& self.cell_numbers@.len() == 0
    }

    /// The search indices match the search text (kept as `prior` without a result).
    pub open spec fn search_fresh(&self, prior: Option<Vec<usize>>) -> bool {
        if self.result_search_text@.len() == 0 {
            self.result_search_indices is None
        } else {
            match self.query_result {
                None => self.result_search_indices == prior,
                Some(r) => (self.result_search_indices matches Some(v) && v@ == search_hits(
                    r.rows@,
                    self.result_search_text@,
                )),
            }
        }
    }

    /// The filter indices match the filter column and text (kept as
    /// `prior` without a result).
    pub open spec fn filter_fresh(&self, prior: Option<Vec<usize>>) -> bool {
        match self.filter_column_index {
            None => self.filter_indices is None,
            Some(col) => if self.filter_text@.len() == 0 {
                self.filter_indices is None
            } else {
                match self.query_result {
                    None => self.filter_indices == prior,
                    Some(r) => if col >= r.columns@.len() {
                        self.filter_indices is None
                    } else {
                        (self.filter_indices matches Some(v) && v@ == self.filter_result(
                            col as nat,
                        ))
                    },
                }
            },
        }
    }

    /// The sort indices order the visible rows by the sort column (kept as
    /// `prior` without a result).
    pub open spec fn sort_fresh(&self, prior: Option<Vec<usize>>) -> bool {
        if self.sort_order == SortOrder::Unsorted {
            self.sort_indices is None
        } else {
            match self.sort_column_index {
                None => self.sort_indices is None,
                Some(col) => match self.query_result {
                    None => self.sort_indices == prior,
                    Some(r) => if col >= r.columns@.len() {
                        self.sort_indices is None
                    } else {
                        (self.sort_indices matches Some(v) && self.sorts_rows(v@, col as nat))
                    },
                },
            }
        }
    }

    /// A filter column is chosen and the filter text is not empty.
    pub open spec fn filter_active(&self) -> bool {
        self.filter_column_index is Some && self.filter_text@.len() > 0
    }

    /// Everything outside the result state is as in `o`.
    pub open spec fn same_outside_result(&self, o: &Self) -> bool {
        self.same_lists(o) && self.same_nav(o) && self.same_search(o) && self.same_scroll(o)
    }

    fn reset_sort_filter_state(&mut self)
        requires
            old(self).wf(),
            old(self).sort_indices is None,
            old(self).filter_indices is None,
            old(self).result_page == 0,
        ensures
            final(self).wf(),
            final(self).result_reset(old(self)),
            final(self).query_result == old(self).query_result,
            final(self).result_table_state == old(self).result_table_state,
            final(self).same_outside_result(old(self)),
    {
        self.sort_order = SortOrder::Unsorted;
        self.sort_column_index = None;
        self.sort_mode_active = false;
        self.filter_column_index = None;
        self.filter_text = String::new();
        self.filter_mode_active = false;
        self.filter_modal_step = 0;
        self.result_search_active = false;
        self.result_search_text = String::new();
        self.result_search_indices = None;
        self.cell_numbers = Vec::new();
    }

    fn clear_result(&mut self)
        requires
            old(self).wf(),
        ensures
            final(self).wf(),
            final(self).query_result is None,
            final(self).result_table_state == TableState::new_spec(),
            final(self).scroll_x == 0,
            final(self).scroll == old(self).scroll,
            final(self).result_reset(old(self)),
            final(self).same_lists(old(self)),
            final(self).same_nav(old(self)),
            final(self).same_search(old(self)),
    {
        self.result_search_indices = None;
        self.query_result = None;
        self.sort_indices = None;
        self.filter_indices = None;
        self.result_table_state = TableState::new();
        self.result_page = 0;
        self.scroll_x = 0;
        self.reset_sort_filter_state();
    }

    /// The state after `set_query_result` from state `o`.
    pub open spec fn set_query_result_post(&self, o: &Self, data: QueryResultData) -> bool {
        &&& self.query_result == Some(data)
        &&& self.result_table_state == first_row_state(data)
        &&& self.result_reset(o)
        &&& self.scroll_x == 0
        &&& self.scroll == o.scroll
        &&& self.view == ContentView::QueryResult
        &&& self.navigation_stack@ == o.navigation_stack@.push(o.view)
        &&& self.same_lists(o)
        &&& self.same_search(o)
    }

    /// Show a query result: sort, filter and search are cleared, the first
    /// page is shown with its first row selected, and the current view is
    /// remembered before switching to the result view.
    pub fn set_query_result(&mut self, data: QueryResultData)
        requires
            old(self).wf(),
            data.rows@.len() <= usize::MAX / 4,
        ensures
            final(self).wf(),
            final(self).set_query_result_post(old(self), data),
    {
        self.clear_result();
        let has_rows = data.rows.len() > 0;
        self.query_result = Some(data);
        if has_rows {
            self.result_table_state.select(Some(0));
        }
        self.push_view(ContentView::QueryResult);
    }

    /// The state after `set_table_preview_data` from state `o`.
    pub open spec fn set_table_preview_data_post(&self, o: &Self, data: QueryResultData) -> bool {
        &&& self.query_result == Some(data)
        &&& self.result_table_state == first_row_state(data)
        &&& self.result_reset(o)
        &&& self.same_outside_result(o)
    }

    /// Show the data of a table preview (the view is not changed).
    pub fn set_table_preview_data(&mut self, data: QueryResultData)
        requires
            old(self).wf(),
            data.rows@.len() <= usize::MAX / 4,
        ensures
            final(self).wf(),
            final(self).set_table_preview_data_post(old(self), data),
    {
        self.sort_indices = None;
        self.filter_indices = None;
        self.result_search_indices = None;
        let has_rows = data.rows.len() > 0;
        self.query_result = Some(data);
        self.result_table_state = TableState::new();
        self.result_page = 0;
        self.reset_sort_filter_state();
        if has_rows {
            self.result_table_state.select(Some(0));
        }
    }

    /// Record how the cells of the result read as numbers, row by row, for
    /// sorting.
    pub fn set_cell_numbers(&mut self, numbers: Vec<Vec<CellNumber>>)
        requires
            old(self).wf(),
        ensures
            final(self).wf(),
            final(self).cell_numbers == numbers,
            final(self).query_result == old(self).query_result,
            final(self).result_table_state == old(self).result_table_state,
            final(self).result_page == old(self).result_page,
            final(self).rows_per_page == old(self).rows_per_page,
            final(self).same_sort(old(self)),
            final(self).same_filter(old(self)),
            final(self).same_rsearch(old(self)),
            final(self).same_outside_result(old(self)),
    {
        self.cell_numbers = numbers;
    }

    /// The state after `back_to_questions` from state `o`.
    pub open spec fn back_to_questions_post(&self, o: &Self) -> bool {
        &&& self.query_result is None
        &&& self.result_table_state == TableState::new_spec()
        &&& self.result_reset(o)
        &&& self.scroll_x == 0
        &&& self.scroll == o.scroll
        &&& self.back_from(o, ContentView::Questions)
        &&& self.same_lists(o)
        &&& self.same_search(o)
    }

    /// Leave a query result: everything about it is cleared and the
    /// remembered view comes back (the questions view if none).
    pub fn back_to_questions(&mut self)
        requires
            old(self).wf(),
        ensures
            final(self).wf(),
            final(self).back_to_questions_post(old(self)),
    {
        self.clear_result();
        if self.pop_view().is_none() {
            self.view = ContentView::Questions;
        }
    }

    /// The state after `enter_table_preview` from state `o`.
    pub open spec fn enter_table_preview_post(&self, o: &Self, database_id: u32, table_id: u32, table_name: String) -> bool {
        &&& self.view == (ContentView::TablePreview {
            db_id: database_id,
            table_id,
            table_name,
        })
        &&& self.navigation_stack@ == o.navigation_stack@.push(o.view)
        &&& self.query_result is None
        &&& self.result_table_state == TableState::new_spec()
        &&& self.result_reset(o)
        &&& self.scroll_x == 0
        &&& self.scroll == o.scroll
        &&& self.same_lists(o)
        &&& self.same_search(o)
    }

    /// Show the preview of a table: any result is cleared and the current
    /// view is remembered.
    pub fn enter_table_preview(&mut self, database_id: u32, table_id: u32, table_name: String)
        requires
            old(self).wf(),
        ensures
            final(self).wf(),
            final(self).enter_table_preview_post(old(self), database_id, table_id, table_name),
    {
        self.clear_result();
        self.push_view(ContentView::TablePreview { db_id: database_id, table_id, table_name });
    }

    /// The state after `exit_table_preview` from state `o`.
    pub open spec fn exit_table_preview_post(&self, o: &Self) -> bool {
        &&& self.query_result is None
        &&& self.result_table_state == TableState::new_spec()
        &&& self.result_reset(o)
        &&& self.scroll_x == 0
        &&& self.scroll == o.scroll
        &&& self.back_from(o, ContentView::Databases)
        &&& self.same_lists(o)
        &&& self.same_search(o)
    }

    /// Leave a table preview (back to the databases view if nothing was
    /// remembered).
    pub fn exit_table_preview(&mut self)
        requires
            old(self).wf(),
        ensures
            final(self).wf(),
            final(self).exit_table_preview_post(old(self)),
    {
        self.clear_result();
        if self.pop_view().is_none() {
            self.view = ContentView::Databases;
        }
    }

    // === Sort ===

    /// Whether the sort dialog is open.
    pub fn is_sort_mode_active(&self) -> (r: bool)
        ensures
            r == self.sort_mode_active,
    {
        self.sort_mode_active
    }

    /// The state after `open_sort_modal` from state `o`.
    pub open spec fn open_sort_modal_post(&self, o: &Self) -> bool {
        &&& (o.query_result matches Some(r) && r.columns@.len() > 0) ==> self.sort_mode_active
            && self.sort_modal_selection == match o.sort_column_index {
            Some(c) => c,
            None => 0,
        }
        &&& !(o.query_result matches Some(r) && r.columns@.len() > 0) ==> self.sort_mode_active
            == o.sort_mode_active && self.sort_modal_selection == o.sort_modal_selection
        &&& self.sort_indices == o.sort_indices
        &&& self.sort_order == o.sort_order
        &&& self.sort_column_index == o.sort_column_index
        &&& self.same_rows(o)
        &&& self.same_filter(o)
        &&& self.same_rsearch(o)
        &&& self.same_outside_result(o)
    }

    /// Open the sort dialog on the sorted column (or the first), if the
    /// result has columns.
    pub fn open_sort_modal(&mut self)
        requires
            old(self).wf(),
        ensures
            final(self).wf(),
            final(self).open_sort_modal_post(old(self)),
    {
        if let Some(result) = &self.query_result {
            if result.columns.len() > 0 {
                self.sort_mode_active = true;
                self.sort_modal_selection = match self.sort_column_index {
                    Some(c) => c,
                    None => 0,
                };
            }
        }
    }

    /// The state after `close_sort_modal` from state `o`.
    pub open spec fn close_sort_modal_post(&self, o: &Self) -> bool {
        &&& !self.sort_mode_active
        &&& self.sort_indices == o.sort_indices
        &&& self.sort_order == o.sort_order
        &&& self.sort_column_index == o.sort_column_index
        &&& self.sort_modal_selection == o.sort_modal_selection
        &&& self.same_rows(o)
        &&& self.same_filter(o)
        &&& self.same_rsearch(o)
        &&& self.same_outside_result(o)
    }

    /// Close the sort dialog.
    pub fn close_sort_modal(&mut self)
        requires
            old(self).wf(),
        ensures
            final(self).wf(),
            final(self).close_sort_modal_post(old(self)),
    {
        self.sort_mode_active = false;
    }

    /// The state after `sort_modal_up` from state `o`.
    pub open spec fn sort_modal_up_post(&self, o: &Self) -> bool {
        &&& self.sort_modal_selection == if o.sort_modal_selection > 0 {
            o.sort_modal_selection - 1
        } else {
            0int
        }
        &&& self.sort_indices == o.sort_indices
        &&& self.sort_order == o.sort_order
        &&& self.sort_column_index == o.sort_column_index
        &&& self.sort_mode_active == o.sort_mode_active
        &&& self.same_rows(o)
        &&& self.same_filter(o)
        &&& self.same_rsearch(o)
        &&& self.same_outside_result(o)
    }

    /// Move the sort dialog's cursor up.
    pub fn sort_modal_up(&mut self)
        requires
            old(self).wf(),
        ensures
            final(self).wf(),
            final(self).sort_modal_up_post(old(self)),
    {
        if self.sort_modal_selection > 0 {
            self.sort_modal_selection -= 1;
        }
    }

    /// The state after `sort_modal_down` from state `o`.
    pub open spec fn sort_modal_down_post(&self, o: &Self) -> bool {
        &&& self.sort_modal_selection == match o.query_result {
            Some(r) => if o.sort_modal_selection + 1 < r.columns@.len() {
                o.sort_modal_selection + 1
            } else {
                o.sort_modal_selection as int
            },
            None => o.sort_modal_selection as int,
        }
        &&& self.sort_indices == o.sort_indices
        &&& self.sort_order == o.sort_order
        &&& self.sort_column_index == o.sort_column_index
        &&& self.sort_mode_active == o.sort_mode_active
        &&& self.same_rows(o)
        &&& self.same_filter(o)
        &&& self.same_rsearch(o)
        &&& self.same_outside_result(o)
    }

    /// Move the sort dialog's cursor down, up to the last column.
    pub fn sort_modal_down(&mut self)
        requires
            old(self).wf(),
        ensures
            final(self).wf(),
            final(self).sort_modal_down_post(old(self)),
    {
        if let Some(result) = &self.query_result {
            if self.sort_modal_selection < result.columns.len().saturating_sub(1) {
                self.sort_modal_selection += 1;
            }
        }
    }

    /// The state after `apply_sort` from state `o`.
    pub open spec fn apply_sort_post(&self, o: &Self) -> bool {
        &&& o.sort_column_index == Some(o.sort_modal_selection) ==> self.sort_order == match o.sort_order {
            SortOrder::Unsorted => SortOrder::Ascending,
            SortOrder::Ascending => SortOrder::Descending,
            SortOrder::Descending => SortOrder::Unsorted,
        }
        &&& o.sort_column_index == Some(o.sort_modal_selection) && o.sort_order == SortOrder::Descending ==> self.sort_column_index is None
        &&& o.sort_column_index == Some(o.sort_modal_selection) && o.sort_order != SortOrder::Descending ==> self.sort_column_index == o.sort_column_index
        &&& o.sort_column_index != Some(o.sort_modal_selection) ==> self.sort_order == SortOrder::Ascending && self.sort_column_index == Some(
            o.sort_modal_selection,
        )
        &&& self.sort_fresh(o.sort_indices)
        &&& !self.sort_mode_active
        &&& self.sort_modal_selection == o.sort_modal_selection
        &&& self.result_page == 0
        &&& self.result_table_state == selecting(o.result_table_state, 0)
        &&& self.query_result == o.query_result
        &&& self.rows_per_page == o.rows_per_page
        &&& self.cell_numbers == o.cell_numbers
        &&& self.same_filter(o)
        &&& self.same_rsearch(o)
        &&& self.same_outside_result(o)
    }

    /// Sort (or stop sorting) by the column under the dialog's cursor: a
    /// new column sorts ascending, the same column goes ascending →
    /// descending → unsorted. The dialog closes and the first page's first
    /// row is selected.
    pub fn apply_sort(&mut self)
        requires
            old(self).wf(),
        ensures
            final(self).wf(),
            final(self).apply_sort_post(old(self)),
    {
        let selected_col = self.sort_modal_selection;
        if self.sort_column_index == Some(selected_col) {
            self.sort_order = match self.sort_order {
                SortOrder::Unsorted => SortOrder::Ascending,
                SortOrder::Ascending => SortOrder::Descending,
                SortOrder::Descending => SortOrder::Unsorted,
            };
            if matches!(self.sort_order, SortOrder::Unsorted) {
                self.sort_column_index = None;
                self.sort_indices = None;
            } else {
                self.update_sort_indices();
            }
        } else {
            self.sort_column_index = Some(selected_col);
            self.sort_order = SortOrder::Ascending;
            self.update_sort_indices();
        }
        self.sort_mode_active = false;
        self.result_page = 0;
        self.result_table_state.select(Some(0));
    }

    /// Stop sorting.
    pub fn clear_sort(&mut self)
        requires
            old(self).wf(),
        ensures
            final(self).wf(),
            final(self).sort_order == SortOrder::Unsorted,
            final(self).sort_column_index is None,
            final(self).sort_indices is None,
            final(self).sort_mode_active == old(self).sort_mode_active,
            final(self).sort_modal_selection == old(self).sort_modal_selection,
            final(self).same_rows(old(self)),
            final(self).same_filter(old(self)),
            final(self).same_rsearch(old(self)),
            final(self).same_outside_result(old(self)),
    {
        self.sort_order = SortOrder::Unsorted;
        self.sort_column_index = None;
        self.sort_indices = None;
    }

    /// Recompute the sort indices from the sort column and order.
    pub fn update_sort_indices(&mut self)
        requires
            old(self).wf(),
        ensures
            final(self).wf(),
            final(self).sort_fresh(old(self).sort_indices),
            final(self).sort_order == old(self).sort_order,
            final(self).sort_column_index == old(self).sort_column_index,
            final(self).sort_mode_active == old(self).sort_mode_active,
            final(self).sort_modal_selection == old(self).sort_modal_selection,
            final(self).same_rows(old(self)),
            final(self).same_filter(old(self)),
            final(self).same_rsearch(old(self)),
            final(self).same_outside_result(old(self)),
    {
        if matches!(self.sort_order, SortOrder::Unsorted) {
            self.sort_indices = None;
            return;
        }
        let col_idx = match self.sort_column_index {
            Some(idx) => idx,
            None => {
                self.sort_indices = None;
                return;
            },
        };
        let row_count = self.visible_row_count();
        let descending = matches!(self.sort_order, SortOrder::Descending);
        let out = match &self.query_result {
            None => {
                return;
            },
            Some(result) => {
                if col_idx >= result.columns.len() {
                    None
                } else {
                    let ghost expected = self.sort_keys(col_idx as nat);
                    let mut keys: Vec<SortKey> = Vec::new();
                    let mut a: usize = 0;
                    while a < row_count
                        invariant
                            self.wf(),
                            self.query_result == Some(*result),
                            row_count == self.visible_count(),
                            expected == self.sort_keys(col_idx as nat),
                            0 <= a <= row_count,
                            keys@.len() == a,
                            forall|k: int| 0 <= k < a ==> keys_view(keys@)[k] == expected[k],
                        decreases row_count - a,
                    {
                        let actual = match (&self.filter_indices, &self.result_search_indices) {
                            (Some(fi), _) => fi[a],
                            (None, Some(hits)) => hits[a],
                            (None, None) => a,
                        };
                        assert(actual == self.sort_row(a as nat));
                        assert(actual < result.rows@.len());
                        let row = &result.rows[actual];
                        let text = if col_idx < row.len() {
                            chars_of(row[col_idx].as_str())
                        } else {
                            Vec::new()
                        };
                        let number = if actual < self.cell_numbers.len() && col_idx
                            < self.cell_numbers[actual].len() {
                            self.cell_numbers[actual][col_idx]
                        } else {
                            CellNumber::Text
                        };
                        keys.push(SortKey { text, number });
                        a = a + 1;
                    }
                    assert(keys_view(keys@) =~= expected);
                    let sorted = sort_positions(&keys, descending);
                    Some(sorted)
                }
            },
        };
        self.sort_indices = out;
    }

    /// The sorted column's name and the order, while a sort is in effect.
    pub fn get_sort_info(&self) -> (r: Option<(String, SortOrder)>)
        ensures
            match (self.sort_column_index, self.query_result) {
                (Some(c), Some(q)) => if c < q.columns@.len() && self.sort_order
                    != SortOrder::Unsorted {
                    (r matches Some((name, o)) && name == q.columns@[c as int] && o
                        == self.sort_order)
                } else {
                    r is None
                },
                _ => r is None,
            },
    {
        if let (Some(col_idx), Some(result)) = (self.sort_column_index, &self.query_result) {
            if col_idx < result.columns.len() && !matches!(self.sort_order, SortOrder::Unsorted) {
                return Some((result.columns[col_idx].clone(), self.sort_order));
            }
        }
        None
    }
}

} // verus!
