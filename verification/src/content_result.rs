//! The query result of the content panel: paging, row selection, the sort
//! dialog, the column filter and the all-column search.
use vstd::prelude::*;
use crate::content::{
    rows_len, selecting, ContentPanel, ContentView, QueryResultData, SortOrder,
    RESULT_SCROLL_AMOUNT,
};
use crate::content_nav::shows_result;
use crate::dup::Duplicate;
use crate::rows::{
    filter_hits, filter_rows, index_range, indices_within, is_permutation, keys_view, range_vec,
    search_hits, search_rows, sort_positions, sorted_by, CellNumber, SortKey,
};
use crate::strings::{chars_of, pop_char, push_char};
use crate::ui::TableState;

verus! {

broadcast use vstd::std_specs::vec::group_vec_axioms;

/// `a / b` rounded up.
pub open spec fn div_ceil(a: nat, b: nat) -> nat {
    if a % b == 0 {
        a / b
    } else {
        a / b + 1
    }
}

proof fn lemma_page_below(p: nat, rpp: nat, v: nat)
    requires
        rpp > 0,
        p < div_ceil(v, rpp),
    ensures
        p * rpp < v,
{
    let q = v / rpp;
    let r = v % rpp;
    assert(v == rpp * q + r && 0 <= r < rpp) by {
        vstd::arithmetic::div_mod::lemma_fundamental_div_mod(v as int, rpp as int);
    }
    if r == 0 {
        assert(p + 1 <= q);
        assert(p * rpp + rpp <= q * rpp) by (nonlinear_arith)
            requires
                p + 1 <= q,
                rpp > 0,
        ;
    } else {
        assert(p <= q);
        assert(p * rpp <= q * rpp) by (nonlinear_arith)
            requires
                p <= q,
                rpp > 0,
        ;
    }
}

proof fn lemma_page_down(p: nat, rpp: nat)
    requires
        p > 0,
    ensures
        ((p - 1) as nat) * rpp <= p * rpp,
{
    assert(((p - 1) as nat) * rpp <= p * rpp) by (nonlinear_arith)
        requires
            p > 0,
    ;
}

/// The text of a cell, or nothing when the row has no such column.
pub open spec fn cell_text(rows: Seq<Vec<String>>, i: nat, col: nat) -> Seq<char> {
    if col < rows[i as int]@.len() {
        rows[i as int]@[col as int]@
    } else {
        Seq::empty()
    }
}

/// The numeric reading of a cell, text when none is recorded.
pub open spec fn cell_number(numbers: Seq<Vec<CellNumber>>, i: nat, col: nat) -> CellNumber {
    if i < numbers.len() && col < numbers[i as int]@.len() {
        numbers[i as int]@[col as int]
    } else {
        CellNumber::Text
    }
}

/// The columns and cells of a record, as sequences.
pub open spec fn record_view(r: Option<(Vec<String>, Vec<String>)>) -> Option<(Seq<String>, Seq<String>)> {
    match r {
        Some((c, v)) => Some((c@, v@)),
        None => None,
    }
}

impl ContentPanel {
    /// The rows of the result (none without a result).
    pub open spec fn result_rows(&self) -> Seq<Vec<String>> {
        match self.query_result {
            Some(r) => r.rows@,
            None => Seq::empty(),
        }
    }

    /// The number of rows that pass the search and the filter.
    pub open spec fn visible_count(&self) -> nat {
        match (self.result_search_indices, self.filter_indices) {
            (_, Some(f)) => f@.len(),
            (Some(s), None) => s@.len(),
            (None, None) => rows_len(self.query_result),
        }
    }

    /// The number of result pages.
    pub open spec fn page_count(&self) -> nat {
        div_ceil(self.visible_count(), self.rows_per_page as nat)
    }

    /// The row a sort position refers to, the row shown there: through the
    /// filter when one is active, else through the search when one is
    /// active, else the position itself.
    pub open spec fn sort_row(&self, a: nat) -> nat {
        match (self.filter_indices, self.result_search_indices) {
            (Some(f), _) => f@[a as int] as nat,
            (None, Some(h)) => h@[a as int] as nat,
            (None, None) => a,
        }
    }

    /// The sort key of each sort position for column `col`.
    pub open spec fn sort_keys(&self, col: nat) -> Seq<(Seq<char>, CellNumber)> {
        Seq::new(
            self.visible_count(),
            |a: int|
                (
                    cell_text(self.result_rows(), self.sort_row(a as nat), col),
                    cell_number(self.cell_numbers@, self.sort_row(a as nat), col),
                ),
        )
    }

    /// `v` orders the visible rows by column `col` in the current order.
    pub open spec fn sorts_rows(&self, v: Seq<usize>, col: nat) -> bool {
        is_permutation(v, self.visible_count()) && sorted_by(
            v,
            self.sort_keys(col),
            self.sort_order == SortOrder::Descending,
        )
    }

    /// The filter's indices for the current filter column and text, over
    /// the search hits when a search is active, else over all rows.
    pub open spec fn filter_result(&self, col: nat) -> Seq<usize> {
        filter_hits(
            self.result_rows(),
            match self.result_search_indices {
                Some(s) => s@,
                None => index_range(self.result_rows().len()),
            },
            col,
            self.filter_text@,
        )
    }

    /// The row shown at a position of the visible rows, through the sort,
    /// then the filter or else the search.
    pub open spec fn visible_row_index(&self, logical: nat) -> Option<nat> {
        let sorted: Option<nat> = match self.sort_indices {
            Some(si) => if logical < si@.len() {
                Some(si@[logical as int] as nat)
            } else {
                None
            },
            None => Some(logical),
        };
        match sorted {
            None => None,
            Some(p) => {
                let actual: Option<nat> = match (self.filter_indices, self.result_search_indices) {
                    (Some(f), _) => if p < f@.len() {
                        Some(f@[p as int] as nat)
                    } else {
                        None
                    },
                    (None, Some(s)) => if p < s@.len() {
                        Some(s@[p as int] as nat)
                    } else {
                        None
                    },
                    (None, None) => Some(p),
                };
                match actual {
                    Some(i) => if i < self.result_rows().len() {
                        Some(i)
                    } else {
                        None
                    },
                    None => None,
                }
            },
        }
    }

    /// Only the result selection and page changed, and the rest is as in `o`.
    pub open spec fn paged_from(&self, o: &Self) -> bool {
        &&& self.query_result == o.query_result
        &&& self.rows_per_page == o.rows_per_page
        &&& self.cell_numbers == o.cell_numbers
        &&& self.same_sort(o)
        &&& self.same_filter(o)
        &&& self.same_rsearch(o)
        &&& self.same_lists(o)
        &&& self.same_nav(o)
        &&& self.same_search(o)
        &&& self.same_scroll(o)
    }

    /// The number of visible rows.
    pub fn visible_row_count(&self) -> (r: usize)
        requires
            self.wf(),
        ensures
            r == self.visible_count(),
            r <= rows_len(self.query_result),
    {
        match (&self.result_search_indices, &self.filter_indices) {
            (Some(_), Some(filter)) => filter.len(),
            (None, Some(filter)) => filter.len(),
            (Some(search), None) => search.len(),
            (None, None) => match &self.query_result {
                Some(r) => r.rows.len(),
                None => 0,
            },
        }
    }

    /// The number of pages of visible rows.
    pub fn total_pages(&self) -> (r: usize)
        requires
            self.wf(),
        ensures
            r == self.page_count(),
    {
        let v = self.visible_row_count();
        if v % self.rows_per_page == 0 {
            v / self.rows_per_page
        } else {
            v / self.rows_per_page + 1
        }
    }

    /// The state after `next_page` from state `o`.
    pub open spec fn next_page_post(&self, o: &Self) -> bool {
        &&& self.paged_from(o)
        &&& o.page_count() > 0 && o.result_page + 1 < o.page_count() ==> (
        self.result_page == o.result_page + 1 && self.result_table_state
            == selecting(o.result_table_state, 0))
        &&& !(o.page_count() > 0 && o.result_page + 1 < o.page_count())
            ==> self.result_page == o.result_page
            && self.result_table_state == o.result_table_state
    }

    /// The next page, first row selected; no change on the last page.
    pub fn next_page(&mut self)
        requires
            old(self).wf(),
        ensures
            final(self).wf(),
            final(self).next_page_post(old(self)),
    {
        let total = self.total_pages();
        if total > 0 && self.result_page < total - 1 {
            proof {
                lemma_page_below(
                    (self.result_page + 1) as nat,
                    self.rows_per_page as nat,
                    self.visible_count(),
                );
            }
            self.result_page += 1;
            self.result_table_state.select(Some(0));
        }
    }

    /// The state after `prev_page` from state `o`.
    pub open spec fn prev_page_post(&self, o: &Self) -> bool {
        &&& self.paged_from(o)
        &&& o.result_page > 0 ==> self.result_page == o.result_page - 1
            && self.result_table_state == selecting(o.result_table_state, 0)
        &&& o.result_page == 0 ==> self.result_page == 0
            && self.result_table_state == o.result_table_state
    }

    /// The previous page, first row selected; no change on the first page.
    pub fn prev_page(&mut self)
        requires
            old(self).wf(),
        ensures
            final(self).wf(),
            final(self).prev_page_post(old(self)),
    {
        if self.result_page > 0 {
            proof {
                lemma_page_down(self.result_page as nat, self.rows_per_page as nat);
            }
            self.result_page -= 1;
            self.result_table_state.select(Some(0));
        }
    }

    /// The state after `first_page` from state `o`.
    pub open spec fn first_page_post(&self, o: &Self) -> bool {
        &&& self.paged_from(o)
        &&& self.result_page == 0
        &&& self.result_table_state == selecting(o.result_table_state, 0)
    }

    /// The first page, first row selected.
    pub fn first_page(&mut self)
        requires
            old(self).wf(),
        ensures
            final(self).wf(),
            final(self).first_page_post(old(self)),
    {
        self.result_page = 0;
        self.result_table_state.select(Some(0));
    }

    /// The state after `last_page` from state `o`.
    pub open spec fn last_page_post(&self, o: &Self) -> bool {
        &&& self.paged_from(o)
        &&& o.page_count() > 0 ==> self.result_page == o.page_count() - 1
            && self.result_table_state == selecting(o.result_table_state, 0)
        &&& o.page_count() == 0 ==> self.result_page == o.result_page
            && self.result_table_state == o.result_table_state
    }

    /// The last page, first row selected; no change without pages.
    pub fn last_page(&mut self)
        requires
            old(self).wf(),
        ensures
            final(self).wf(),
            final(self).last_page_post(old(self)),
    {
        let total = self.total_pages();
        if total > 0 {
            proof {
                lemma_page_below(
                    (total - 1) as nat,
                    self.rows_per_page as nat,
                    self.visible_count(),
                );
            }
            self.result_page = total - 1;
            self.result_table_state.select(Some(0));
        }
    }

    /// The number of columns scrolling can move over in the current view.
    pub open spec fn column_count(&self) -> nat {
        match self.view {
            ContentView::QueryResult => match self.query_result {
                Some(r) => r.columns@.len(),
                None => 0,
            },
            ContentView::Questions => 3,
            _ => 0,
        }
    }

    /// The number of columns of the current view.
    pub fn get_total_columns(&self) -> (r: usize)
        ensures
            r == self.column_count(),
    {
        match self.view {
            ContentView::QueryResult => match &self.query_result {
                Some(r) => r.columns.len(),
                None => 0,
            },
            ContentView::Questions => 3,
            _ => 0,
        }
    }

    /// The state after `scroll_left` from state `o`.
    pub open spec fn scroll_left_post(&self, o: &Self) -> bool {
        &&& self.scroll_x == if o.scroll_x > 0 {
            o.scroll_x - 1
        } else {
            0int
        }
        &&& self.scroll == o.scroll
        &&& self.same_result_state(o)
        &&& self.same_lists(o)
        &&& self.same_nav(o)
        &&& self.same_search(o)
    }

    /// Show one column further left.
    pub fn scroll_left(&mut self)
        requires
            old(self).wf(),
        ensures
            final(self).wf(),
            final(self).scroll_left_post(old(self)),
    {
        self.scroll_x = self.scroll_x.saturating_sub(1);
    }

    /// The state after `scroll_right` from state `o`.
    pub open spec fn scroll_right_post(&self, o: &Self) -> bool {
        &&& self.scroll_x == if o.column_count() > 0 && o.scroll_x + 1
            < o.column_count() {
            o.scroll_x + 1
        } else {
            o.scroll_x as int
        }
        &&& self.scroll == o.scroll
        &&& self.same_result_state(o)
        &&& self.same_lists(o)
        &&& self.same_nav(o)
        &&& self.same_search(o)
    }

    /// Show one column further right, up to the last column.
    pub fn scroll_right(&mut self)
        requires
            old(self).wf(),
        ensures
            final(self).wf(),
            final(self).scroll_right_post(old(self)),
    {
        let total_cols = self.get_total_columns();
        if total_cols > 0 && self.scroll_x < total_cols.saturating_sub(1) {
            self.scroll_x += 1;
        }
    }

    /// The state after `select_result_next` from state `o`.
    pub open spec fn select_result_next_post(&self, o: &Self) -> bool {
        &&& self.paged_from(o)
        &&& self.result_page == o.result_page
        &&& self.result_table_state == if rows_len(o.query_result) > 0 {
            selecting(
                o.result_table_state,
                if crate::content::current(o.result_table_state) + 1 < rows_len(
                    o.query_result,
                ) {
                    crate::content::current(o.result_table_state) + 1
                } else {
                    (rows_len(o.query_result) - 1) as nat
                },
            )
        } else {
            o.result_table_state
        }
    }

    /// Select the next result row, up to the last row of the result.
    pub fn select_result_next(&mut self)
        requires
            old(self).wf(),
        ensures
            final(self).wf(),
            final(self).select_result_next_post(old(self)),
    {
        if let Some(result) = &self.query_result {
            if result.rows.len() == 0 {
                return;
            }
            let current = match self.result_table_state.selected() {
                Some(s) => s,
                None => 0,
            };
            let next = if current + 1 < result.rows.len() {
                current + 1
            } else {
                result.rows.len() - 1
            };
            self.result_table_state.select(Some(next));
        }
    }

    /// The state after `select_result_previous` from state `o`.
    pub open spec fn select_result_previous_post(&self, o: &Self) -> bool {
        &&& self.paged_from(o)
        &&& self.result_page == o.result_page
        &&& self.result_table_state == crate::content::after_previous(
            o.result_table_state,
        )
    }

    /// Select the previous result row, stopping at the first.
    pub fn select_result_previous(&mut self)
        requires
            old(self).wf(),
        ensures
            final(self).wf(),
            final(self).select_result_previous_post(old(self)),
    {
        let current = match self.result_table_state.selected() {
            Some(s) => s,
            None => 0,
        };
        self.result_table_state.select(Some(current.saturating_sub(1)));
    }

    /// Rows of the result on the current page, counted over all rows.
    pub open spec fn page_rows(&self) -> nat {
        match self.query_result {
            Some(r) => {
                let start = self.result_page * self.rows_per_page;
                let end = if start + self.rows_per_page < r.rows@.len() {
                    start + self.rows_per_page
                } else {
                    r.rows@.len() as int
                };
                (end - start) as nat
            },
            None => 0,
        }
    }

    /// The row selected after PageDown: ten further, at most the last row
    /// of the page.
    pub open spec fn page_down_target(&self) -> nat {
        let target = crate::content::current(self.result_table_state) + RESULT_SCROLL_AMOUNT;
        let last = if self.page_rows() > 0 {
            (self.page_rows() - 1) as nat
        } else {
            0
        };
        if target < last {
            target as nat
        } else {
            last
        }
    }

    /// The number of rows on the current page.
    pub fn current_page_row_count(&self) -> (r: usize)
        requires
            self.wf(),
        ensures
            r == self.page_rows(),
            r <= rows_len(self.query_result),
    {
        match &self.query_result {
            Some(r) => {
                let total_rows = r.rows.len();
                let page_start = self.result_page * self.rows_per_page;
                let page_end = if page_start + self.rows_per_page < total_rows {
                    page_start + self.rows_per_page
                } else {
                    total_rows
                };
                page_end - page_start
            },
            None => 0,
        }
    }

    /// The state after `scroll_result_page_up` from state `o`.
    pub open spec fn scroll_result_page_up_post(&self, o: &Self) -> bool {
        &&& self.paged_from(o)
        &&& self.result_page == o.result_page
        &&& self.result_table_state == selecting(
            o.result_table_state,
            if crate::content::current(o.result_table_state) >= RESULT_SCROLL_AMOUNT {
                (crate::content::current(o.result_table_state)
                    - RESULT_SCROLL_AMOUNT) as nat
            } else {
                0
            },
        )
    }

    /// Move the result selection ten rows up, stopping at the first row.
    pub fn scroll_result_page_up(&mut self)
        requires
            old(self).wf(),
        ensures
            final(self).wf(),
            final(self).scroll_result_page_up_post(old(self)),
    {
        let current = match self.result_table_state.selected() {
            Some(s) => s,
            None => 0,
        };
        self.result_table_state.select(Some(current.saturating_sub(RESULT_SCROLL_AMOUNT)));
    }

    /// The state after `scroll_result_page_down` from state `o`.
    pub open spec fn scroll_result_page_down_post(&self, o: &Self) -> bool {
        &&& self.paged_from(o)
        &&& self.result_page == o.result_page
        &&& self.result_table_state == selecting(
            o.result_table_state,
            o.page_down_target(),
        )
    }

    /// Move the result selection ten rows down, stopping at the last row of
    /// the page.
    pub fn scroll_result_page_down(&mut self)
        requires
            old(self).wf(),
        ensures
            final(self).wf(),
            final(self).scroll_result_page_down_post(old(self)),
    {
        let current = match self.result_table_state.selected() {
            Some(s) => s,
            None => 0,
        };
        let page_row_count = self.current_page_row_count();
        let target = current + RESULT_SCROLL_AMOUNT;
        let last = page_row_count.saturating_sub(1);
        let new = if target < last {
            target
        } else {
            last
        };
        self.result_table_state.select(Some(new));
    }

    /// The visible row at a position, through sort, filter and search.
    pub fn get_visible_row(&self, logical_index: usize) -> (r: Option<&Vec<String>>)
        ensures
            match self.visible_row_index(logical_index as nat) {
                Some(i) => r == Some(&self.result_rows()[i as int]),
                None => r is None,
            },
    {
        match &self.query_result {
            None => None,
            Some(result) => {
                let sorted_index = match &self.sort_indices {
                    Some(si) => {
                        if logical_index < si.len() {
                            si[logical_index]
                        } else {
                            return None;
                        }
                    },
                    None => logical_index,
                };
                let actual_index = match (&self.filter_indices, &self.result_search_indices) {
                    (Some(f), _) => {
                        if sorted_index < f.len() {
                            f[sorted_index]
                        } else {
                            return None;
                        }
                    },
                    (None, Some(s)) => {
                        if sorted_index < s.len() {
                            s[sorted_index]
                        } else {
                            return None;
                        }
                    },
                    (None, None) => sorted_index,
                };
                if actual_index < result.rows.len() {
                    Some(&result.rows[actual_index])
                } else {
                    None
                }
            },
        }
    }

    /// Columns and cells of the selected result row (through paging, sort,
    /// filter and search), in a result view.
    pub open spec fn selected_record(&self) -> Option<(Seq<String>, Seq<String>)> {
        match (self.query_result, self.result_table_state.selected) {
            (Some(q), Some(s)) => if shows_result(self.view) {
                match self.visible_row_index((self.result_page * self.rows_per_page + s) as nat) {
                    Some(i) => Some((q.columns@, self.result_rows()[i as int]@)),
                    None => None,
                }
            } else {
                None
            },
            _ => None,
        }
    }

    /// Columns and cells of the selected result row (through paging, sort,
    /// filter and search), in a result view.
    pub fn get_selected_record(&self) -> (r: Option<(Vec<String>, Vec<String>)>)
        requires
            self.wf(),
        ensures
            record_view(r) == self.selected_record(),
    {
        if !self.is_result_view() {
            return None;
        }
        if let Some(result) = &self.query_result {
            if let Some(selected) = self.result_table_state.selected() {
                let page_start = self.result_page * self.rows_per_page;
                let logical_index = page_start + selected;
                if let Some(row) = self.get_visible_row(logical_index) {
                    let columns = result.columns.duplicate();
                    let cells = row.duplicate();
                    assert(columns@ =~= result.columns@);
                    assert(cells@ =~= row@);
                    return Some((columns, cells));
                }
            }
        }
        None
    }
}

} // verus!
