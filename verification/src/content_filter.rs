//! The column filter dialog and the all-column search of the content panel.
use vstd::prelude::*;
use crate::content::{rows_len, selecting, ContentPanel, SortOrder};
use crate::rows::{filter_rows, range_vec, search_rows};
use crate::strings::{pop_char, push_char};

verus! {

broadcast use vstd::std_specs::vec::group_vec_axioms;

impl ContentPanel {
    /// Only the filter dialog's fields may differ from `o`.
    pub open spec fn dialog_only(&self, o: &Self) -> bool {
        &&& self.filter_indices == o.filter_indices
        &&& self.filter_column_index == o.filter_column_index
        &&& self.same_rows(o)
        &&& self.same_sort(o)
        &&& self.same_rsearch(o)
        &&& self.same_outside_result(o)
    }

    /// Whether the filter dialog is open.
    pub fn is_filter_mode_active(&self) -> (r: bool)
        ensures
            r == self.filter_mode_active,
    {
        self.filter_mode_active
    }

    /// The state after `open_filter_modal` from state `o`.
    pub open spec fn open_filter_modal_post(&self, o: &Self) -> bool {
        &&& self.dialog_only(o)
        &&& self.filter_text@ == o.filter_text@
        &&& (o.query_result matches Some(r) && r.columns@.len() > 0) ==> self.filter_mode_active
            && self.filter_modal_step == 0 && self.filter_modal_selection
            == match o.filter_column_index {
            Some(c) => c,
            None => 0,
        }
        &&& !(o.query_result matches Some(r) && r.columns@.len() > 0) ==> self.same_filter(o)
    }

    /// Open the filter dialog at its column step, on the filtered column (or
    /// the first), if the result has columns.
    pub fn open_filter_modal(&mut self)
        requires
            old(self).wf(),
        ensures
            final(self).wf(),
            final(self).open_filter_modal_post(old(self)),
    {
        if let Some(result) = &self.query_result {
            if result.columns.len() > 0 {
                self.filter_mode_active = true;
                self.filter_modal_step = 0;
                self.filter_modal_selection = match self.filter_column_index {
                    Some(c) => c,
                    None => 0,
                };
            }
        }
    }

    /// The state after `close_filter_modal` from state `o`.
    pub open spec fn close_filter_modal_post(&self, o: &Self) -> bool {
        &&& self.dialog_only(o)
        &&& !self.filter_mode_active
        &&& self.filter_modal_step == 0
        &&& self.filter_text@ == o.filter_text@
        &&& self.filter_modal_selection == o.filter_modal_selection
    }

    /// Close the filter dialog (the typed text is kept).
    pub fn close_filter_modal(&mut self)
        requires
            old(self).wf(),
        ensures
            final(self).wf(),
            final(self).close_filter_modal_post(old(self)),
    {
        self.filter_mode_active = false;
        self.filter_modal_step = 0;
    }

    /// The state after `filter_modal_up` from state `o`.
    pub open spec fn filter_modal_up_post(&self, o: &Self) -> bool {
        &&& self.dialog_only(o)
        &&& self.filter_modal_selection == if o.filter_modal_step == 0
            && o.filter_modal_selection > 0 {
            o.filter_modal_selection - 1
        } else {
            o.filter_modal_selection as int
        }
        &&& self.filter_text@ == o.filter_text@
        &&& self.filter_mode_active == o.filter_mode_active
        &&& self.filter_modal_step == o.filter_modal_step
    }

    /// Move the column cursor up, at the column step.
    pub fn filter_modal_up(&mut self)
        requires
            old(self).wf(),
        ensures
            final(self).wf(),
            final(self).filter_modal_up_post(old(self)),
    {
        if self.filter_modal_step == 0 && self.filter_modal_selection > 0 {
            self.filter_modal_selection -= 1;
        }
    }

    /// The state after `filter_modal_down` from state `o`.
    pub open spec fn filter_modal_down_post(&self, o: &Self) -> bool {
        &&& self.dialog_only(o)
        &&& self.filter_modal_selection == match o.query_result {
            Some(r) => if o.filter_modal_step == 0 && o.filter_modal_selection
                + 1 < r.columns@.len() {
                o.filter_modal_selection + 1
            } else {
                o.filter_modal_selection as int
            },
            None => o.filter_modal_selection as int,
        }
        &&& self.filter_text@ == o.filter_text@
        &&& self.filter_mode_active == o.filter_mode_active
        &&& self.filter_modal_step == o.filter_modal_step
    }

    /// Move the column cursor down, at the column step, up to the last column.
    pub fn filter_modal_down(&mut self)
        requires
            old(self).wf(),
        ensures
            final(self).wf(),
            final(self).filter_modal_down_post(old(self)),
    {
        if self.filter_modal_step == 0 {
            if let Some(result) = &self.query_result {
                if self.filter_modal_selection < result.columns.len().saturating_sub(1) {
                    self.filter_modal_selection += 1;
                }
            }
        }
    }

    /// The state after `filter_modal_next_step` from state `o`.
    pub open spec fn filter_modal_next_step_post(&self, o: &Self) -> bool {
        &&& self.dialog_only(o)
        &&& self.filter_modal_step == if o.filter_modal_step == 0 {
            1
        } else {
            o.filter_modal_step
        }
        &&& self.filter_text@ == if o.filter_modal_step == 0
            && o.filter_column_index != Some(o.filter_modal_selection) {
            Seq::<char>::empty()
        } else {
            o.filter_text@
        }
        &&& self.filter_mode_active == o.filter_mode_active
        &&& self.filter_modal_selection == o.filter_modal_selection
    }

    /// From the column step to the text step; the text is cleared unless
    /// the chosen column is the one already filtered.
    pub fn filter_modal_next_step(&mut self)
        requires
            old(self).wf(),
        ensures
            final(self).wf(),
            final(self).filter_modal_next_step_post(old(self)),
    {
        if self.filter_modal_step == 0 {
            self.filter_modal_step = 1;
            if self.filter_column_index != Some(self.filter_modal_selection) {
                self.filter_text = String::new();
            }
        }
    }

    /// The state after `filter_modal_prev_step` from state `o`.
    pub open spec fn filter_modal_prev_step_post(&self, o: &Self) -> bool {
        &&& self.dialog_only(o)
        &&& self.filter_modal_step == if o.filter_modal_step == 1 {
            0
        } else {
            o.filter_modal_step
        }
        &&& self.filter_text@ == o.filter_text@
        &&& self.filter_mode_active == o.filter_mode_active
        &&& self.filter_modal_selection == o.filter_modal_selection
    }

    /// From the text step back to the column step.
    pub fn filter_modal_prev_step(&mut self)
        requires
            old(self).wf(),
        ensures
            final(self).wf(),
            final(self).filter_modal_prev_step_post(old(self)),
    {
        if self.filter_modal_step == 1 {
            self.filter_modal_step = 0;
        }
    }

    /// The state after `filter_modal_input_char` from state `o`.
    pub open spec fn filter_modal_input_char_post(&self, o: &Self, c: char) -> bool {
        &&& self.dialog_only(o)
        &&& self.filter_text@ == if o.filter_modal_step == 1 {
            o.filter_text@.push(c)
        } else {
            o.filter_text@
        }
        &&& self.filter_mode_active == o.filter_mode_active
        &&& self.filter_modal_step == o.filter_modal_step
        &&& self.filter_modal_selection == o.filter_modal_selection
    }

    /// Type a character of the filter text, at the text step.
    pub fn filter_modal_input_char(&mut self, c: char)
        requires
            old(self).wf(),
        ensures
            final(self).wf(),
            final(self).filter_modal_input_char_post(old(self), c),
    {
        if self.filter_modal_step == 1 {
            push_char(&mut self.filter_text, c);
        }
    }

    /// The state after `filter_modal_delete_char` from state `o`.
    pub open spec fn filter_modal_delete_char_post(&self, o: &Self) -> bool {
        &&& self.dialog_only(o)
        &&& self.filter_text@ == if o.filter_modal_step == 1
            && o.filter_text@.len() > 0 {
            o.filter_text@.drop_last()
        } else {
            o.filter_text@
        }
        &&& self.filter_mode_active == o.filter_mode_active
        &&& self.filter_modal_step == o.filter_modal_step
        &&& self.filter_modal_selection == o.filter_modal_selection
    }

    /// Delete the last character of the filter text, at the text step.
    pub fn filter_modal_delete_char(&mut self)
        requires
            old(self).wf(),
        ensures
            final(self).wf(),
            final(self).filter_modal_delete_char_post(old(self)),
    {
        if self.filter_modal_step == 1 {
            let _ = pop_char(&mut self.filter_text);
        }
    }

    /// The state after `apply_filter` from state `o`.
    pub open spec fn apply_filter_post(&self, o: &Self) -> bool {
        &&& o.filter_text@.len() == 0 ==> self.filter_column_index is None
            && self.filter_indices is None
        &&& o.filter_text@.len() > 0 ==> self.filter_column_index == Some(
            o.filter_modal_selection,
        ) && self.filter_fresh(o.filter_indices)
        &&& self.filter_text@ == o.filter_text@
        &&& o.sort_order != SortOrder::Unsorted ==> self.sort_fresh(o.sort_indices)
        &&& o.sort_order == SortOrder::Unsorted ==> self.sort_indices == o.sort_indices
        &&& self.sort_order == o.sort_order
        &&& self.sort_column_index == o.sort_column_index
        &&& self.sort_mode_active == o.sort_mode_active
        &&& self.sort_modal_selection == o.sort_modal_selection
        &&& !self.filter_mode_active
        &&& self.filter_modal_step == 0
        &&& self.filter_modal_selection == o.filter_modal_selection
        &&& self.result_page == 0
        &&& self.result_table_state == selecting(o.result_table_state, 0)
        &&& self.query_result == o.query_result
        &&& self.rows_per_page == o.rows_per_page
        &&& self.cell_numbers == o.cell_numbers
        &&& self.same_rsearch(o)
        &&& self.same_outside_result(o)
    }

    /// Filter by the text on the column under the cursor (an empty text
    /// clears the filter), re-sort, close the dialog and show the first
    /// page with its first row selected.
    pub fn apply_filter(&mut self)
        requires
            old(self).wf(),
        ensures
            final(self).wf(),
            final(self).apply_filter_post(old(self)),
    {
        let selected_col = self.filter_modal_selection;
        if self.filter_text.as_str().is_empty() {
            self.clear_filter();
            assert(self.filter_text@ =~= old(self).filter_text@);
        } else {
            self.filter_column_index = Some(selected_col);
            self.update_filter_indices();
            if !matches!(self.sort_order, SortOrder::Unsorted) {
                self.update_sort_indices();
            }
        }
        self.filter_mode_active = false;
        self.filter_modal_step = 0;
        self.result_page = 0;
        self.result_table_state.select(Some(0));
    }

    /// The state after `clear_filter` from state `o`.
    pub open spec fn clear_filter_post(&self, o: &Self) -> bool {
        &&& self.filter_column_index is None
        &&& self.filter_text@.len() == 0
        &&& self.filter_indices is None
        &&& self.filter_mode_active == o.filter_mode_active
        &&& self.filter_modal_step == o.filter_modal_step
        &&& self.filter_modal_selection == o.filter_modal_selection
        &&& o.sort_order != SortOrder::Unsorted ==> self.sort_fresh(o.sort_indices)
        &&& o.sort_order == SortOrder::Unsorted ==> self.sort_indices == o.sort_indices
        &&& self.sort_order == o.sort_order
        &&& self.sort_column_index == o.sort_column_index
        &&& self.sort_mode_active == o.sort_mode_active
        &&& self.sort_modal_selection == o.sort_modal_selection
        &&& self.same_rows(o)
        &&& self.same_rsearch(o)
        &&& self.same_outside_result(o)
    }

    /// Remove the filter and re-sort all rows.
    pub fn clear_filter(&mut self)
        requires
            old(self).wf(),
        ensures
            final(self).wf(),
            final(self).clear_filter_post(old(self)),
    {
        self.filter_column_index = None;
        self.filter_text = String::new();
        self.filter_indices = None;
        if !matches!(self.sort_order, SortOrder::Unsorted) {
            self.update_sort_indices();
        }
    }

    /// Recompute the filter indices from the filter column and text, within
    /// the search hits when a search is active.
    pub fn update_filter_indices(&mut self)
        requires
            old(self).wf(),
        ensures
            final(self).wf(),
            final(self).filter_fresh(old(self).filter_indices),
            final(self).filter_column_index == old(self).filter_column_index,
            final(self).filter_text@ == old(self).filter_text@,
            final(self).filter_mode_active == old(self).filter_mode_active,
            final(self).filter_modal_step == old(self).filter_modal_step,
            final(self).filter_modal_selection == old(self).filter_modal_selection,
            final(self).same_rows(old(self)),
            final(self).same_sort(old(self)),
            final(self).same_rsearch(old(self)),
            final(self).same_outside_result(old(self)),
    {
        let col_idx = match self.filter_column_index {
            Some(idx) => idx,
            None => {
                self.filter_indices = None;
                return;
            },
        };
        if self.filter_text.as_str().is_empty() {
            self.filter_indices = None;
            return;
        }
        let out = match &self.query_result {
            None => {
                return;
            },
            Some(result) => {
                if col_idx >= result.columns.len() {
                    None
                } else {
                    let v = match &self.result_search_indices {
                        Some(search) => filter_rows(
                            &result.rows,
                            search,
                            col_idx,
                            self.filter_text.as_str(),
                        ),
                        None => {
                            let all = range_vec(result.rows.len());
                            filter_rows(&result.rows, &all, col_idx, self.filter_text.as_str())
                        },
                    };
                    Some(v)
                }
            },
        };
        self.filter_indices = out;
    }

    /// The filtered column's name, the filter text and the number of
    /// visible rows, while a filter is in effect.
    pub fn get_filter_info(&self) -> (r: Option<(String, String, usize)>)
        requires
            self.wf(),
        ensures
            match (self.filter_column_index, self.query_result) {
                (Some(c), Some(q)) => if c < q.columns@.len() && self.filter_text@.len() > 0 {
                    (r matches Some((name, text, n)) && name == q.columns@[c as int] && text@
                        == self.filter_text@ && n == self.visible_count())
                } else {
                    r is None
                },
                _ => r is None,
            },
    {
        if let (Some(col_idx), Some(result)) = (self.filter_column_index, &self.query_result) {
            if col_idx < result.columns.len() && !self.filter_text.as_str().is_empty() {
                let visible = self.visible_row_count();
                return Some((result.columns[col_idx].clone(), self.filter_text.clone(), visible));
            }
        }
        None
    }

    // === All-column search ===

    /// Whether the search input is open.
    pub fn is_result_search_active(&self) -> (r: bool)
        ensures
            r == self.result_search_active,
    {
        self.result_search_active
    }

    /// The state after `open_result_search` from state `o`.
    pub open spec fn open_result_search_post(&self, o: &Self) -> bool {
        &&& self.result_search_active
        &&& self.result_search_text@ == o.result_search_text@
        &&& self.result_search_indices == o.result_search_indices
        &&& self.same_rows(o)
        &&& self.same_sort(o)
        &&& self.same_filter(o)
        &&& self.same_outside_result(o)
    }

    /// Open the search input (the text typed before is kept).
    pub fn open_result_search(&mut self)
        requires
            old(self).wf(),
        ensures
            final(self).wf(),
            final(self).open_result_search_post(old(self)),
    {
        self.result_search_active = true;
    }

    /// The state after `close_result_search` from state `o`.
    pub open spec fn close_result_search_post(&self, o: &Self) -> bool {
        &&& !self.result_search_active
        &&& self.result_search_text@ == o.result_search_text@
        &&& self.result_search_indices == o.result_search_indices
        &&& self.same_rows(o)
        &&& self.same_sort(o)
        &&& self.same_filter(o)
        &&& self.same_outside_result(o)
    }

    /// Close the search input, keeping the search.
    pub fn close_result_search(&mut self)
        requires
            old(self).wf(),
        ensures
            final(self).wf(),
            final(self).close_result_search_post(old(self)),
    {
        self.result_search_active = false;
    }

    /// The search, filter and sort are recomputed after the search text
    /// changed from `o`'s: the filter only while one is in effect, the sort
    /// only while one is.
    pub open spec fn research_from(&self, o: &Self) -> bool {
        &&& self.search_fresh(o.result_search_indices)
        &&& (o.filter_active() ==> self.filter_fresh(o.filter_indices))
        &&& (!o.filter_active() ==> self.filter_indices == o.filter_indices)
        &&& (o.sort_order != SortOrder::Unsorted ==> self.sort_fresh(o.sort_indices))
        &&& (o.sort_order == SortOrder::Unsorted ==> self.sort_indices == o.sort_indices)
        &&& self.filter_column_index == o.filter_column_index
        &&& self.filter_text@ == o.filter_text@
        &&& self.filter_mode_active == o.filter_mode_active
        &&& self.filter_modal_step == o.filter_modal_step
        &&& self.filter_modal_selection == o.filter_modal_selection
        &&& self.sort_order == o.sort_order
        &&& self.sort_column_index == o.sort_column_index
        &&& self.sort_mode_active == o.sort_mode_active
        &&& self.sort_modal_selection == o.sort_modal_selection
        &&& self.same_rows(o)
        &&& self.same_outside_result(o)
    }

    fn refresh_after_search(&mut self)
        requires
            old(self).wf(),
        ensures
            final(self).wf(),
            final(self).research_from(old(self)),
            final(self).result_search_active == old(self).result_search_active,
            final(self).result_search_text@ == old(self).result_search_text@,
    {
        self.update_result_search_indices();
        if self.filter_column_index.is_some() && !self.filter_text.as_str().is_empty() {
            self.update_filter_indices();
        }
        if !matches!(self.sort_order, SortOrder::Unsorted) {
            self.update_sort_indices();
        }
    }

    /// The state after `result_search_input_char` from state `o`.
    pub open spec fn result_search_input_char_post(&self, o: &Self, c: char) -> bool {
        &&& self.result_search_text@ == o.result_search_text@.push(c)
        &&& self.result_search_active == o.result_search_active
        &&& self.research_from(o)
    }

    /// Type a character of the search; the search, filter and sort follow
    /// at once.
    pub fn result_search_input_char(&mut self, c: char)
        requires
            old(self).wf(),
        ensures
            final(self).wf(),
            final(self).result_search_input_char_post(old(self), c),
    {
        push_char(&mut self.result_search_text, c);
        self.refresh_after_search();
    }

    /// The state after `result_search_delete_char` from state `o`.
    pub open spec fn result_search_delete_char_post(&self, o: &Self) -> bool {
        &&& self.result_search_text@ == if o.result_search_text@.len() > 0 {
            o.result_search_text@.drop_last()
        } else {
            o.result_search_text@
        }
        &&& self.result_search_active == o.result_search_active
        &&& self.research_from(o)
    }

    /// Delete the last character of the search; the search, filter and sort
    /// follow at once.
    pub fn result_search_delete_char(&mut self)
        requires
            old(self).wf(),
        ensures
            final(self).wf(),
            final(self).result_search_delete_char_post(old(self)),
    {
        let _ = pop_char(&mut self.result_search_text);
        self.refresh_after_search();
    }

    /// The state after `apply_result_search` from state `o`.
    pub open spec fn apply_result_search_post(&self, o: &Self) -> bool {
        &&& !self.result_search_active
        &&& self.result_search_text@ == o.result_search_text@
        &&& self.result_search_indices == o.result_search_indices
        &&& self.result_page == 0
        &&& self.result_table_state == selecting(o.result_table_state, 0)
        &&& self.query_result == o.query_result
        &&& self.rows_per_page == o.rows_per_page
        &&& self.cell_numbers == o.cell_numbers
        &&& self.same_sort(o)
        &&& self.same_filter(o)
        &&& self.same_outside_result(o)
    }

    /// Close the search input and show the first page with its first row
    /// selected.
    pub fn apply_result_search(&mut self)
        requires
            old(self).wf(),
        ensures
            final(self).wf(),
            final(self).apply_result_search_post(old(self)),
    {
        self.result_search_active = false;
        self.result_page = 0;
        self.result_table_state.select(Some(0));
    }

    /// The state after `clear_result_search` from state `o`.
    pub open spec fn clear_result_search_post(&self, o: &Self) -> bool {
        &&& self.result_search_text@.len() == 0
        &&& self.result_search_indices is None
        &&& !self.result_search_active
        &&& self.research_from(o)
    }

    /// Remove the search; the filter and sort follow at once.
    pub fn clear_result_search(&mut self)
        requires
            old(self).wf(),
        ensures
            final(self).wf(),
            final(self).clear_result_search_post(old(self)),
    {
        self.result_search_text = String::new();
        self.result_search_indices = None;
        self.result_search_active = false;
        if self.filter_column_index.is_some() && !self.filter_text.as_str().is_empty() {
            self.update_filter_indices();
        }
        if !matches!(self.sort_order, SortOrder::Unsorted) {
            self.update_sort_indices();
        }
    }

    /// Recompute the search indices from the search text.
    pub fn update_result_search_indices(&mut self)
        requires
            old(self).wf(),
        ensures
            final(self).wf(),
            final(self).search_fresh(old(self).result_search_indices),
            final(self).result_search_active == old(self).result_search_active,
            final(self).result_search_text@ == old(self).result_search_text@,
            final(self).same_rows(old(self)),
            final(self).same_sort(old(self)),
            final(self).same_filter(old(self)),
            final(self).same_outside_result(old(self)),
    {
        if self.result_search_text.as_str().is_empty() {
            self.result_search_indices = None;
            return;
        }
        let out = match &self.query_result {
            None => {
                return;
            },
            Some(result) => search_rows(&result.rows, self.result_search_text.as_str()),
        };
        self.result_search_indices = Some(out);
    }

    /// The search text, the number of visible rows and the number of all
    /// rows, while a search text is set.
    pub fn get_result_search_info(&self) -> (r: Option<(String, usize, usize)>)
        requires
            self.wf(),
        ensures
            self.result_search_text@.len() > 0 ==> (r matches Some((text, matched, total))
                && text@ == self.result_search_text@ && matched == self.visible_count() && total
                == rows_len(self.query_result)),
            self.result_search_text@.len() == 0 ==> r is None,
    {
        if !self.result_search_text.as_str().is_empty() {
            let total = match &self.query_result {
                Some(r) => r.rows.len(),
                None => 0,
            };
            let matched = self.visible_row_count();
            return Some((self.result_search_text.clone(), matched, total));
        }
        None
    }
}

} // verus!
