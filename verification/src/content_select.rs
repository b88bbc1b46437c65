//! Choosing several rows of a query result: toggling one row, a range from
//! an anchor, all shown rows, and reading back the chosen records.
use vstd::prelude::*;
use crate::content::{increasing, ContentPanel};
use crate::dup::Duplicate;

verus! {

broadcast use vstd::std_specs::vec::group_vec_axioms;

/// The selection after toggling `x`: removed when present, added otherwise.
pub open spec fn toggled(s: Set<usize>, x: usize) -> Set<usize> {
    if s.contains(x) {
        s.remove(x)
    } else {
        s.insert(x)
    }
}

/// `x` occurs in `s` exactly at position `p`, when `p` is where `x` belongs
/// in the increasing sequence `s`.
proof fn lemma_position_contains(s: Seq<usize>, x: usize, p: int)
    requires
        increasing(s),
        0 <= p <= s.len(),
        forall|i: int| 0 <= i < p ==> s[i] < x,
        p < s.len() ==> x <= s[p],
    ensures
        s.contains(x) <==> (p < s.len() && s[p] == x),
{
    if s.contains(x) {
        let j = choose|j: int| 0 <= j < s.len() && s[j] == x;
        if j > p {
            assert(s[p] < s[j]);
        }
    }
    if p < s.len() && s[p] == x {
        assert(s[p] == x);
    }
}

/// Where `x` stands, or would stand, in the increasing sequence `v`.
fn position_in(v: &Vec<usize>, x: usize) -> (p: usize)
    ensures
        p <= v@.len(),
        forall|i: int| 0 <= i < p ==> v@[i] < x,
        p < v@.len() ==> x <= v@[p as int],
{
    let mut p: usize = 0;
    while p < v.len() && v[p] < x
        invariant
            p <= v@.len(),
            forall|i: int| 0 <= i < p ==> v@[i] < x,
        decreases v@.len() - p,
    {
        p = p + 1;
    }
    p
}

/// Adds `x` to the increasing sequence `v`, which stays increasing.
fn insert_increasing(v: &mut Vec<usize>, x: usize)
    requires
        increasing(old(v)@),
    ensures
        increasing(final(v)@),
        final(v)@.to_set() == old(v)@.to_set().insert(x),
{
    let ghost s = v@;
    let p = position_in(v, x);
    proof {
        lemma_position_contains(s, x, p as int);
    }
    if p < v.len() && v[p] == x {
        assert(s.to_set() =~= s.to_set().insert(x));
    } else {
        v.insert(p, x);
        let ghost t = v@;
        assert(t == s.insert(p as int, x));
        assert forall|i: int, j: int| 0 <= i < j < t.len() implies t[i] < t[j] by {
            if j < p {
                assert(t[i] == s[i] && t[j] == s[j]);
            } else if j == p {
                assert(t[i] == s[i]);
            } else if i < p {
                assert(t[i] == s[i] && t[j] == s[j - 1]);
                if j - 1 >= p {
                    assert(x <= s[p as int]);
                }
            } else if i == p {
                assert(t[j] == s[j - 1]);
                assert(x <= s[p as int]);
                assert(x != s[p as int]);
                if j - 1 > p {
                    assert(s[p as int] < s[j - 1]);
                }
            } else {
                assert(t[i] == s[i - 1] && t[j] == s[j - 1]);
            }
        }
        assert forall|a: usize| t.to_set().contains(a) == s.to_set().insert(x).contains(a) by {
            if t.contains(a) {
                let k = choose|k: int| 0 <= k < t.len() && t[k] == a;
                if k < p {
                    assert(s[k] == a);
                } else if k > p {
                    assert(s[k - 1] == a);
                }
            }
            if s.contains(a) {
                let k = choose|k: int| 0 <= k < s.len() && s[k] == a;
                if k < p {
                    assert(t[k] == a);
                } else {
                    assert(t[k + 1] == a);
                }
            }
            if a == x {
                assert(t[p as int] == x);
            }
        }
        assert(t.to_set() =~= s.to_set().insert(x));
    }
}

/// Removes `x` from the increasing sequence `v`, which stays increasing.
fn remove_increasing(v: &mut Vec<usize>, x: usize)
    requires
        increasing(old(v)@),
    ensures
        increasing(final(v)@),
        final(v)@.to_set() == old(v)@.to_set().remove(x),
{
    let ghost s = v@;
    let p = position_in(v, x);
    proof {
        lemma_position_contains(s, x, p as int);
    }
    if p < v.len() && v[p] == x {
        v.remove(p);
        let ghost t = v@;
        assert(t == s.remove(p as int));
        assert forall|i: int, j: int| 0 <= i < j < t.len() implies t[i] < t[j] by {
            if j < p {
                assert(t[i] == s[i] && t[j] == s[j]);
            } else if i < p {
                assert(t[i] == s[i] && t[j] == s[j + 1]);
            } else {
                assert(t[i] == s[i + 1] && t[j] == s[j + 1]);
            }
        }
        assert forall|a: usize| t.to_set().contains(a) == s.to_set().remove(x).contains(a) by {
            if t.contains(a) {
                let k = choose|k: int| 0 <= k < t.len() && t[k] == a;
                if k < p {
                    assert(s[k] == a);
                    assert(s[k] < s[p as int]);
                } else {
                    assert(s[k + 1] == a);
                    assert(s[p as int] < s[k + 1]);
                }
            }
            if s.contains(a) && a != x {
                let k = choose|k: int| 0 <= k < s.len() && s[k] == a;
                if k < p {
                    assert(t[k] == a);
                } else {
                    assert(k != p);
                    assert(t[k - 1] == a);
                }
            }
        }
        assert(t.to_set() =~= s.to_set().remove(x));
    } else {
        assert(s.to_set() =~= s.to_set().remove(x));
    }
}

/// A sequence in increasing order holds as many elements as its set.
pub proof fn lemma_increasing_count(s: Seq<usize>)
    requires
        increasing(s),
    ensures
        s.to_set().len() == s.len(),
        s.to_set().finite(),
{
    assert(s.no_duplicates()) by {
        assert forall|i: int, j: int| 0 <= i < s.len() && 0 <= j < s.len() && i != j implies s[i]
            != s[j] by {
            if i < j {
                assert(s[i] < s[j]);
            } else {
                assert(s[j] < s[i]);
            }
        }
    }
    s.unique_seq_to_set();
    vstd::seq_lib::seq_to_set_is_finite(s);
}

/// Pairs of columns and cells for the listed rows, skipping indices past
/// the last row.
pub open spec fn records_at(cols: Seq<String>, rows: Seq<Vec<String>>, idxs: Seq<usize>) -> Seq<
    (Seq<String>, Seq<String>),
>
    decreases idxs.len(),
{
    if idxs.len() == 0 {
        Seq::empty()
    } else {
        let rest = records_at(cols, rows, idxs.drop_last());
        let i = idxs.last();
        if i < rows.len() {
            rest.push((cols, rows[i as int]@))
        } else {
            rest
        }
    }
}

impl ContentPanel {
    /// The chosen rows, by their index in the result.
    pub open spec fn selection(&self) -> Set<usize> {
        self.selected_rows@.to_set()
    }

    /// Only the selection and its anchor differ from `o`.
    pub open spec fn same_but_selection(&self, o: &Self) -> bool {
        *self == (ContentPanel {
            selected_rows: self.selected_rows,
            selection_anchor: self.selection_anchor,
            ..*o
        })
    }

    /// The result row that display position `d` stands for: through the
    /// search when one is active, else the filter, else the sort, else `d`
    /// itself.
    pub open spec fn original_row_index(&self, d: usize) -> Option<usize> {
        match (self.result_search_indices, self.filter_indices, self.sort_indices) {
            (Some(s), _, _) => if d < s@.len() {
                Some(s@[d as int])
            } else {
                None
            },
            (None, Some(f), _) => if d < f@.len() {
                Some(f@[d as int])
            } else {
                None
            },
            (None, None, Some(t)) => if d < t@.len() {
                Some(t@[d as int])
            } else {
                None
            },
            (None, None, None) => Some(d),
        }
    }

    /// How many display positions a selection can range over.
    pub open spec fn selectable_count(&self) -> nat {
        match (self.result_search_indices, self.filter_indices, self.sort_indices) {
            (Some(s), _, _) => s@.len(),
            (None, Some(f), _) => f@.len(),
            (None, None, Some(t)) => t@.len(),
            (None, None, None) => match self.query_result {
                Some(q) => q.rows@.len(),
                None => 0,
            },
        }
    }

    /// The rows that display positions from `lo` up to, not including,
    /// `hi` stand for.
    pub open spec fn rows_shown_between(&self, lo: int, hi: int) -> Set<usize> {
        Set::new(
            |o: usize|
                exists|d: usize| lo <= d < hi && #[trigger] self.original_row_index(d) == Some(o),
        )
    }

    /// Adding display position `d` to a range adds the row it stands for.
    proof fn lemma_shown_step(&self, lo: int, d: usize)
        requires
            lo <= d,
        ensures
            self.rows_shown_between(lo, d + 1) == match self.original_row_index(d) {
                Some(o) => self.rows_shown_between(lo, d as int).insert(o),
                None => self.rows_shown_between(lo, d as int),
            },
    {
        let a = self.rows_shown_between(lo, d + 1);
        let b = match self.original_row_index(d) {
            Some(o) => self.rows_shown_between(lo, d as int).insert(o),
            None => self.rows_shown_between(lo, d as int),
        };
        assert forall|o: usize| a.contains(o) == b.contains(o) by {
            if a.contains(o) {
                let e = choose|e: usize| lo <= e < d + 1 && #[trigger] self.original_row_index(e) == Some(o);
                if e < d {
                    assert(self.rows_shown_between(lo, d as int).contains(o));
                }
            }
            if self.rows_shown_between(lo, d as int).contains(o) {
                let e = choose|e: usize| lo <= e < d && #[trigger] self.original_row_index(e) == Some(o);
                assert(lo <= e < d + 1);
            }
            if self.original_row_index(d) == Some(o) {
                assert(a.contains(o));
            }
        }
        assert(a =~= b);
    }

    /// An empty range shows no rows.
    proof fn lemma_shown_empty(&self, lo: int)
        ensures
            self.rows_shown_between(lo, lo) == Set::<usize>::empty(),
    {
        assert(self.rows_shown_between(lo, lo) =~= Set::<usize>::empty());
    }

    /// The result row that display position `display_idx` stands for.
    fn get_original_row_index(&self, display_idx: usize) -> (r: Option<usize>)
        ensures
            r == self.original_row_index(display_idx),
    {
        if let Some(search) = &self.result_search_indices {
            if display_idx < search.len() {
                Some(search[display_idx])
            } else {
                None
            }
        } else if let Some(filter) = &self.filter_indices {
            if display_idx < filter.len() {
                Some(filter[display_idx])
            } else {
                None
            }
        } else if let Some(sort) = &self.sort_indices {
            if display_idx < sort.len() {
                Some(sort[display_idx])
            } else {
                None
            }
        } else {
            Some(display_idx)
        }
    }

    /// How many display positions a selection can range over.
    fn get_visible_row_count(&self) -> (r: usize)
        ensures
            r == self.selectable_count(),
    {
        if let Some(search) = &self.result_search_indices {
            search.len()
        } else if let Some(filter) = &self.filter_indices {
            filter.len()
        } else if let Some(sort) = &self.sort_indices {
            sort.len()
        } else if let Some(result) = &self.query_result {
            result.rows.len()
        } else {
            0
        }
    }

    /// Adds row `x` to the selection; nothing else changes.
    fn select_row(&mut self, x: usize)
        requires
            old(self).wf(),
        ensures
            final(self).wf(),
            final(self).same_but_selection(old(self)),
            final(self).selection_anchor == old(self).selection_anchor,
            final(self).selection() == old(self).selection().insert(x),
    {
        insert_increasing(&mut self.selected_rows, x);
    }

    /// Selects row `row_index` when it is not selected, and deselects it
    /// when it is.
    pub fn toggle_row_selection(&mut self, row_index: usize)
        requires
            old(self).wf(),
        ensures
            final(self).wf(),
            final(self).same_but_selection(old(self)),
            final(self).selection_anchor == old(self).selection_anchor,
            final(self).selection() == toggled(old(self).selection(), row_index),
    {
        if self.is_row_selected(row_index) {
            remove_increasing(&mut self.selected_rows, row_index);
        } else {
            insert_increasing(&mut self.selected_rows, row_index);
        }
    }

    /// Whether row `row_index` is selected.
    pub fn is_row_selected(&self, row_index: usize) -> (r: bool)
        ensures
            r == self.selection().contains(row_index),
    {
        let mut i: usize = 0;
        while i < self.selected_rows.len()
            invariant
                i <= self.selected_rows@.len(),
                forall|k: int| 0 <= k < i ==> self.selected_rows@[k] != row_index,
            decreases self.selected_rows@.len() - i,
        {
            if self.selected_rows[i] == row_index {
                return true;
            }
            i = i + 1;
        }
        false
    }

    /// Deselects every row and forgets the range anchor.
    pub fn clear_selection(&mut self)
        requires
            old(self).wf(),
        ensures
            final(self).wf(),
            final(self).same_but_selection(old(self)),
            final(self).selection() == Set::<usize>::empty(),
            final(self).selection_anchor is None,
    {
        self.selected_rows = Vec::new();
        self.selection_anchor = None;
        assert(self.selected_rows@.to_set() =~= Set::<usize>::empty());
    }

    /// How many rows are selected.
    pub fn selected_count(&self) -> (r: usize)
        requires
            self.wf(),
        ensures
            r == self.selection().len(),
    {
        proof {
            lemma_increasing_count(self.selected_rows@);
        }
        self.selected_rows.len()
    }

    /// Whether any row is selected.
    pub fn has_selection(&self) -> (r: bool)
        ensures
            r <==> exists|x: usize| #[trigger] self.selection().contains(x),
    {
        if self.selected_rows.len() > 0 {
            assert(self.selection().contains(self.selected_rows@[0]));
            true
        } else {
            false
        }
    }

    /// The selected rows, each once, in increasing order.
    pub fn get_selected_indices(&self) -> (r: Vec<usize>)
        requires
            self.wf(),
        ensures
            increasing(r@),
            r@.to_set() == self.selection(),
    {
        let r = self.selected_rows.duplicate();
        assert(r@ =~= self.selected_rows@);
        r
    }

    /// Selects every row the result shows (through search, filter and
    /// sort); without a result nothing changes.
    pub fn select_all_rows(&mut self)
        requires
            old(self).wf(),
        ensures
            final(self).wf(),
            final(self).same_but_selection(old(self)),
            final(self).selection_anchor == old(self).selection_anchor,
            final(self).selection() == (if old(self).query_result is Some {
                old(self).selection().union(
                    old(self).rows_shown_between(0, old(self).selectable_count() as int),
                )
            } else {
                old(self).selection()
            }),
    {
        let ghost before = *self;
        if self.query_result.is_some() {
            let total = self.get_visible_row_count();
            let mut d: usize = 0;
            proof {
                before.lemma_shown_empty(0);
                assert(self.selection() =~= before.selection().union(Set::<usize>::empty()));
            }
            while d < total
                invariant
                    d <= total,
                    total == before.selectable_count(),
                    before.wf(),
                    self.wf(),
                    self.same_but_selection(&before),
                    self.selection_anchor == before.selection_anchor,
                    self.selection() == before.selection().union(
                        before.rows_shown_between(0, d as int),
                    ),
                decreases total - d,
            {
                let o = self.get_original_row_index(d);
                proof {
                    before.lemma_shown_step(0, d);
                }
                if let Some(row) = o {
                    self.select_row(row);
                    assert(self.selection() =~= before.selection().union(
                        before.rows_shown_between(0, d + 1),
                    ));
                }
                d = d + 1;
            }
        }
    }

    /// Extends the selection over the display positions from the anchor to
    /// `target_display_idx`, both included. Without an anchor, the cursor
    /// row becomes the anchor first; with neither, nothing changes.
    pub fn extend_selection_to(&mut self, target_display_idx: usize)
        requires
            old(self).wf(),
        ensures
            final(self).wf(),
            final(self).same_but_selection(old(self)),
            final(self).selection_anchor == (match old(self).selection_anchor {
                Some(a) => Some(a),
                None => old(self).result_table_state.selected,
            }),
            final(self).selection() == (match final(self).selection_anchor {
                Some(a) => old(self).selection().union(
                    old(self).rows_shown_between(
                        if a <= target_display_idx {
                            a as int
                        } else {
                            target_display_idx as int
                        },
                        if a <= target_display_idx {
                            target_display_idx + 1
                        } else {
                            a + 1
                        },
                    ),
                ),
                None => old(self).selection(),
            }),
    {
        let ghost before = *self;
        if self.selection_anchor.is_none() {
            if let Some(current) = self.result_table_state.selected() {
                self.selection_anchor = Some(current);
            }
        }
        if let Some(anchor) = self.selection_anchor {
            let (start, end) = if anchor <= target_display_idx {
                (anchor, target_display_idx)
            } else {
                (target_display_idx, anchor)
            };
            let mut d: usize = start;
            proof {
                before.lemma_shown_empty(start as int);
                assert(self.selection() =~= before.selection().union(Set::<usize>::empty()));
            }
            while d < end
                invariant
                    start <= d <= end,
                    before.wf(),
                    self.wf(),
                    self.same_but_selection(&before),
                    self.selection_anchor == Some(anchor),
                    self.selection() == before.selection().union(
                        before.rows_shown_between(start as int, d as int),
                    ),
                decreases end - d,
            {
                let o = self.get_original_row_index(d);
                proof {
                    before.lemma_shown_step(start as int, d);
                }
                if let Some(row) = o {
                    self.select_row(row);
                    assert(self.selection() =~= before.selection().union(
                        before.rows_shown_between(start as int, d + 1),
                    ));
                }
                d = d + 1;
            }
            let o = self.get_original_row_index(end);
            proof {
                before.lemma_shown_step(start as int, end);
            }
            if let Some(row) = o {
                self.select_row(row);
                assert(self.selection() =~= before.selection().union(
                    before.rows_shown_between(start as int, end + 1),
                ));
            }
        }
    }

    /// The result row under the cursor, counting earlier pages.
    pub fn get_current_row_index(&self) -> (r: Option<usize>)
        requires
            self.wf(),
        ensures
            r == (match self.result_table_state.selected {
                Some(s) => self.original_row_index(
                    (self.result_page * self.rows_per_page + s) as usize,
                ),
                None => None,
            }),
    {
        match self.result_table_state.selected() {
            Some(display_idx) => {
                let global = self.result_page * self.rows_per_page + display_idx;
                self.get_original_row_index(global)
            },
            None => None,
        }
    }

    /// Columns and cells of each selected row, in increasing row order;
    /// rows past the end of the result are skipped, and without a result
    /// the list is empty.
    pub fn get_selected_records(&self) -> (r: Vec<(Vec<String>, Vec<String>)>)
        requires
            self.wf(),
        ensures
            ({
                let want = match self.query_result {
                    Some(q) => records_at(q.columns@, q.rows@, self.selected_rows@),
                    None => Seq::empty(),
                };
                &&& r@.len() == want.len()
                &&& forall|k: int|
                    0 <= k < want.len() ==> (#[trigger] r@[k]).0@ == want[k].0 && r@[k].1@
                        == want[k].1
            }),
    {
        let result = match &self.query_result {
            Some(q) => q,
            None => {
                return Vec::new();
            },
        };
        let mut out: Vec<(Vec<String>, Vec<String>)> = Vec::new();
        let mut k: usize = 0;
        while k < self.selected_rows.len()
            invariant
                k <= self.selected_rows@.len(),
                self.query_result == Some(*result),
                out@.len() == records_at(result.columns@, result.rows@, self.selected_rows@.take(k as int)).len(),
                forall|m: int|
                    0 <= m < out@.len() ==> (#[trigger] out@[m]).0@ == records_at(
                        result.columns@,
                        result.rows@,
                        self.selected_rows@.take(k as int),
                    )[m].0 && out@[m].1@ == records_at(
                        result.columns@,
                        result.rows@,
                        self.selected_rows@.take(k as int),
                    )[m].1,
            decreases self.selected_rows@.len() - k,
        {
            let idx = self.selected_rows[k];
            assert(self.selected_rows@.take(k + 1).drop_last() =~= self.selected_rows@.take(
                k as int,
            ));
            if idx < result.rows.len() {
                let cols = result.columns.duplicate();
                let row = result.rows[idx].duplicate();
                assert(cols@ =~= result.columns@);
                assert(row@ =~= result.rows@[idx as int]@);
                out.push((cols, row));
            }
            k = k + 1;
        }
        assert(self.selected_rows@.take(self.selected_rows@.len() as int) =~= self.selected_rows@);
        out
    }
}

} // verus!
