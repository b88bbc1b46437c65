//! What ordering, filtering, searching and selecting result rows, and
//! showing a cell, mean for every input: the relations their results bear
//! to the rows, the typed text and the numbers read from the cells.
use vstd::prelude::*;
use crate::content::{increasing, ContentPanel};
use crate::display::cell_text_of;
use crate::models::JsonValue;
use crate::rows::{
    filter_hits, is_permutation, key_order, keys_view, search_hits, sorted_by, text_order,
    CellNumber, CellOrder, SortKey,
};
use crate::strings::{contains_seq, lowercase};

verus! {

// === Ordering ===

/// Two cells that both read as numbers compare by those numbers, whatever
/// their text: the smaller comes first in an ascending sort and last in a
/// descending one, and equal numbers compare equal.
pub proof fn law_numbers_compare_numerically(a: Seq<char>, x: i64, b: Seq<char>, y: i64)
    ensures
        key_order((a, CellNumber::Number(x)), (b, CellNumber::Number(y)), false) == (if x < y {
            CellOrder::Less
        } else if x > y {
            CellOrder::Greater
        } else {
            CellOrder::Equal
        }),
        key_order((a, CellNumber::Number(x)), (b, CellNumber::Number(y)), true) == (if x < y {
            CellOrder::Greater
        } else if x > y {
            CellOrder::Less
        } else {
            CellOrder::Equal
        }),
{
}

proof fn lemma_text_first_difference(a: Seq<char>, b: Seq<char>, k: int)
    requires
        0 <= k <= a.len(),
        k <= b.len(),
        a.take(k) == b.take(k),
    ensures
        k < a.len() && k < b.len() && (a[k] as int) < (b[k] as int) ==> text_order(a, b) == CellOrder::Less,
        k == a.len() && k < b.len() ==> text_order(a, b) == CellOrder::Less,
        k == a.len() && k == b.len() ==> text_order(a, b) == CellOrder::Equal,
    decreases k,
{
    if k > 0 {
        assert(a[0] == a.take(k)[0] && b[0] == b.take(k)[0]);
        assert(a.drop_first().take(k - 1) =~= a.take(k).drop_first());
        assert(b.drop_first().take(k - 1) =~= b.take(k).drop_first());
        lemma_text_first_difference(a.drop_first(), b.drop_first(), k - 1);
        if k < a.len() && k < b.len() {
            assert(a.drop_first()[k - 1] == a[k] && b.drop_first()[k - 1] == b[k]);
        }
    }
}

/// When either cell does not read as a number, the cells compare by their
/// text, character by character by code point: at the first place they
/// differ the smaller character comes first, a text that the other merely
/// extends comes first, and equal texts compare equal; a descending sort
/// reverses that.
pub proof fn law_text_cells_compare_by_text(a: Seq<char>, an: CellNumber, b: Seq<char>, bn: CellNumber, k: int)
    requires
        an is Text || bn is Text,
        0 <= k <= a.len(),
        k <= b.len(),
        a.take(k) == b.take(k),
    ensures
        k < a.len() && k < b.len() && (a[k] as int) < (b[k] as int) ==> key_order((a, an), (b, bn), false)
            == CellOrder::Less && key_order((a, an), (b, bn), true) == CellOrder::Greater,
        k == a.len() && k < b.len() ==> key_order((a, an), (b, bn), false) == CellOrder::Less
            && key_order((a, an), (b, bn), true) == CellOrder::Greater,
        a == b ==> key_order((a, an), (b, bn), false) == CellOrder::Equal,
{
    lemma_text_first_difference(a, b, k);
    if a == b {
        assert(a.take(a.len() as int) == b.take(a.len() as int));
        lemma_text_first_difference(a, b, a.len() as int);
    }
}

/// The number a key reads as (zero for a key that reads as none).
pub open spec fn key_number(k: SortKey) -> int {
    match k.number {
        CellNumber::Number(x) => x as int,
        _ => 0,
    }
}

/// Every key reads as a number.
pub open spec fn all_numbers(keys: Seq<SortKey>) -> bool {
    forall|i: int| 0 <= i < keys.len() ==> (#[trigger] keys[i]).number is Number
}

/// The numbers of the listed keys go up (down when `descending`) along `out`.
pub open spec fn numbers_in_order(keys: Seq<SortKey>, out: Seq<usize>, descending: bool) -> bool {
    forall|p: int, q: int|
        0 <= p < q < out.len() ==> if descending {
            key_number(keys[#[trigger] out[q] as int]) <= key_number(keys[#[trigger] out[p] as int])
        } else {
            key_number(keys[out[p] as int]) <= key_number(keys[out[q] as int])
        }
}

proof fn lemma_numbers_step(keys: Seq<SortKey>, out: Seq<usize>, descending: bool, p: int, q: int)
    requires
        is_permutation(out, keys.len()),
        sorted_by(out, keys_view(keys), descending),
        all_numbers(keys),
        0 <= p < q < out.len(),
    ensures
        if descending {
            key_number(keys[out[q] as int]) <= key_number(keys[out[p] as int])
        } else {
            key_number(keys[out[p] as int]) <= key_number(keys[out[q] as int])
        },
    decreases q - p,
{
    let r = q - 1;
    let kv = keys_view(keys);
    assert(out[r] < keys.len() && out[q] < keys.len());
    assert(kv[out[r] as int] == (keys[out[r] as int].text@, keys[out[r] as int].number));
    assert(kv[out[q] as int] == (keys[out[q] as int].text@, keys[out[q] as int].number));
    assert(keys[out[r] as int].number is Number);
    assert(keys[out[q] as int].number is Number);
    assert(key_order(kv[out[r] as int], kv[out[q] as int], descending) != CellOrder::Greater);
    if p < r {
        lemma_numbers_step(keys, out, descending, p, r);
    }
}

/// When every cell of the sorted column reads as a number, the sorted rows
/// go by their numbers: up for an ascending sort, down for a descending
/// one, whatever the text of the cells.
pub proof fn law_sorted_by_numbers(keys: Seq<SortKey>, out: Seq<usize>, descending: bool)
    requires
        is_permutation(out, keys.len()),
        sorted_by(out, keys_view(keys), descending),
        all_numbers(keys),
    ensures
        numbers_in_order(keys, out, descending),
{
    assert forall|p: int, q: int| 0 <= p < q < out.len() implies if descending {
        key_number(keys[#[trigger] out[q] as int]) <= key_number(keys[#[trigger] out[p] as int])
    } else {
        key_number(keys[out[p] as int]) <= key_number(keys[out[q] as int])
    } by {
        lemma_numbers_step(keys, out, descending, p, q);
    }
}

// === Filtering and searching ===

/// Row `i` has a cell in column `col` whose lower-cased text contains the
/// lower-cased `text` somewhere.
pub open spec fn cell_contains(rows: Seq<Vec<String>>, i: usize, col: nat, text: Seq<char>) -> bool {
    &&& i < rows.len()
    &&& col < rows[i as int]@.len()
    &&& contains_seq(lowercase(rows[i as int]@[col as int]@), lowercase(text))
}

/// The column filter keeps an index exactly when it is one of the indices
/// filtered and its row's cell in the filter column, lower-cased, contains
/// the lower-cased filter text anywhere in it; a cell that is the filter
/// text itself always keeps its row; indices given in increasing order are
/// kept in increasing order.
pub proof fn law_filter_keeps_containing_rows(
    rows: Seq<Vec<String>>,
    base: Seq<usize>,
    col: nat,
    text: Seq<char>,
)
    ensures
        forall|i: usize|
            #[trigger] filter_hits(rows, base, col, text).contains(i) <==> (base.contains(i)
                && cell_contains(rows, i, col, text)),
        forall|i: usize|
            base.contains(i) && i < rows.len() && col < rows[i as int]@.len() && rows[i as int]@[col as int]@
                == text ==> #[trigger] filter_hits(rows, base, col, text).contains(i),
        filter_hits(rows, base, col, text).len() <= base.len(),
        increasing(base) ==> increasing(filter_hits(rows, base, col, text)),
    decreases base.len(),
{
    let out = filter_hits(rows, base, col, text);
    if base.len() == 0 {
        assert forall|i: usize| !out.contains(i) && !base.contains(i) by {}
    } else {
        let rest = base.drop_last();
        law_filter_keeps_containing_rows(rows, rest, col, text);
        let prev = filter_hits(rows, rest, col, text);
        assert forall|i: usize| base.contains(i) <==> (rest.contains(i) || i == base.last()) by {
            if base.contains(i) {
                let k = choose|k: int| 0 <= k < base.len() && base[k] == i;
                if k < base.len() - 1 {
                    assert(rest[k] == i);
                }
            }
            if rest.contains(i) {
                let k = choose|k: int| 0 <= k < rest.len() && rest[k] == i;
                assert(base[k] == i);
            }
            if i == base.last() {
                assert(base[base.len() - 1] == i);
            }
        }
        let x = base.last();
        if cell_contains(rows, x, col, text) {
            assert(out == prev.push(x));
            assert forall|i: usize| out.contains(i) <==> (prev.contains(i) || i == x) by {
                if out.contains(i) {
                    let k = choose|k: int| 0 <= k < out.len() && out[k] == i;
                    if k < prev.len() {
                        assert(prev[k] == i);
                    }
                }
                if prev.contains(i) {
                    let k = choose|k: int| 0 <= k < prev.len() && prev[k] == i;
                    assert(out[k] == i);
                }
                if i == x {
                    assert(out[out.len() - 1] == i);
                }
            }
        } else {
            assert(out == prev);
        }
        if increasing(base) {
            assert(increasing(rest));
            assert forall|a: int, b: int| 0 <= a < b < out.len() implies out[a] < out[b] by {
                if out != prev && b == out.len() - 1 {
                    assert(out[a] == prev[a]);
                    assert(prev.contains(prev[a]));
                    assert(rest.contains(prev[a]));
                    let k = choose|k: int| 0 <= k < rest.len() && rest[k] == prev[a];
                    assert(base[k] == rest[k]);
                } else {
                    assert(out[a] == prev[a] && out[b] == prev[b]);
                }
            }
        }
        assert forall|i: usize|
            base.contains(i) && i < rows.len() && col < rows[i as int]@.len() && rows[i as int]@[col as int]@
                == text implies #[trigger] out.contains(i) by {
            assert(lowercase(text).subrange(0, lowercase(text).len() as int) =~= lowercase(text));
            assert(crate::strings::occurs_at(lowercase(text), lowercase(text), 0));
        }
    }
}

/// Some cell of row `i`, lower-cased, contains the lower-cased `text`.
pub open spec fn row_contains(rows: Seq<Vec<String>>, i: usize, text: Seq<char>) -> bool {
    &&& i < rows.len()
    &&& exists|j: int|
        0 <= j < rows[i as int]@.len() && #[trigger] contains_seq(
            lowercase(rows[i as int]@[j]@),
            lowercase(text),
        )
}

/// The search across all columns finds a row exactly when some cell of
/// it, lower-cased, contains the lower-cased search text anywhere; a row
/// with a cell that is the search text itself is always found. The rows
/// found come in increasing order.
pub proof fn law_search_finds_containing_rows(rows: Seq<Vec<String>>, text: Seq<char>)
    requires
        rows.len() <= usize::MAX,
    ensures
        forall|i: usize| #[trigger] search_hits(rows, text).contains(i) <==> row_contains(rows, i, text),
        forall|i: usize, j: int|
            #![trigger search_hits(rows, text).contains(i), rows[i as int]@[j]]
            i < rows.len() && 0 <= j < rows[i as int]@.len() && rows[i as int]@[j]@ == text
                ==> search_hits(rows, text).contains(i),
        forall|p: int, q: int|
            0 <= p < q < search_hits(rows, text).len() ==> #[trigger] search_hits(rows, text)[p]
                < #[trigger] search_hits(rows, text)[q],
    decreases rows.len(),
{
    let out = search_hits(rows, text);
    if rows.len() == 0 {
        assert forall|i: usize| !out.contains(i) by {}
    } else {
        let rest = rows.drop_last();
        law_search_finds_containing_rows(rest, text);
        crate::rows::lemma_search_hits_within(rest, text);
        let prev = search_hits(rest, text);
        let x = (rows.len() - 1) as usize;
        assert forall|i: usize| i < rest.len() implies (row_contains(rest, i, text) <==> row_contains(
            rows,
            i,
            text,
        )) by {
            assert(rest[i as int] == rows[i as int]);
        }
        let hit = crate::rows::row_hit(rows.last()@, text);
        assert(hit <==> row_contains(rows, x, text)) by {
            assert(rows.last() == rows[x as int]);
            if hit {
                let j = choose|j: int|
                    0 <= j < rows.last()@.len() && crate::rows::cell_hit((#[trigger] rows.last()@[j])@, text);
                assert(contains_seq(lowercase(rows[x as int]@[j]@), lowercase(text)));
            }
            if row_contains(rows, x, text) {
                let j = choose|j: int|
                    0 <= j < rows[x as int]@.len() && #[trigger] contains_seq(
                        lowercase(rows[x as int]@[j]@),
                        lowercase(text),
                    );
                assert(crate::rows::cell_hit(rows.last()@[j]@, text));
            }
        }
        if hit {
            assert(out == prev.push(x));
        } else {
            assert(out == prev);
        }
        assert forall|i: usize| #[trigger] out.contains(i) <==> row_contains(rows, i, text) by {
            if out.contains(i) {
                let k = choose|k: int| 0 <= k < out.len() && out[k] == i;
                if k < prev.len() {
                    assert(prev[k] == i);
                    assert(prev.contains(i));
                    assert(i < rest.len());
                }
            }
            if row_contains(rows, i, text) {
                if i < x {
                    assert(row_contains(rest, i, text));
                    assert(prev.contains(i));
                    let k = choose|k: int| 0 <= k < prev.len() && prev[k] == i;
                    assert(out[k] == i);
                } else {
                    assert(i == x);
                    assert(out[out.len() - 1] == i);
                }
            }
        }
        assert forall|i: usize, j: int|
            #![trigger out.contains(i), rows[i as int]@[j]]
            i < rows.len() && 0 <= j < rows[i as int]@.len() && rows[i as int]@[j]@ == text implies out.contains(i) by {
            assert(lowercase(text).subrange(0, lowercase(text).len() as int) =~= lowercase(text));
            assert(crate::strings::occurs_at(lowercase(text), lowercase(text), 0));
            assert(contains_seq(lowercase(rows[i as int]@[j]@), lowercase(text)));
        }
        assert forall|p: int, q: int| 0 <= p < q < out.len() implies #[trigger] out[p] < #[trigger] out[q] by {
            if hit && q == out.len() - 1 {
                assert(out[p] == prev[p]);
                assert(prev[p] < rest.len());
            } else {
                assert(out[p] == prev[p] && out[q] == prev[q]);
            }
        }
    }
}

// === Selecting ===

/// With a column filter and no search, display position `d` stands for
/// the `d`-th filtered row, and positions past the filtered rows stand for
/// none.
pub proof fn law_filtered_position(p: ContentPanel, f: Vec<usize>, d: usize)
    requires
        p.result_search_indices is None,
        p.filter_indices == Some(f),
    ensures
        d < f@.len() ==> p.original_row_index(d) == Some(f@[d as int]),
        d >= f@.len() ==> p.original_row_index(d) is None,
{
}

/// Without a sort, and without a search and a filter at once, the row a
/// display position selects is the row shown at that position.
pub proof fn law_selection_matches_display(p: ContentPanel, d: usize)
    requires
        p.wf(),
        p.sort_indices is None,
        !(p.result_search_indices is Some && p.filter_indices is Some),
        d < p.visible_count(),
    ensures
        p.visible_row_index(d as nat) matches Some(i) && p.original_row_index(d) == Some(i as usize),
{
}

/// With a column filter and no search, a range of display positions
/// covers only filtered rows: each position in the range adds the
/// filtered row it shows, and nothing else.
pub proof fn law_filtered_range(p: ContentPanel, f: Vec<usize>, lo: int, hi: int)
    requires
        p.result_search_indices is None,
        p.filter_indices == Some(f),
        0 <= lo,
        hi <= f@.len(),
    ensures
        p.rows_shown_between(lo, hi) == Set::new(
            |o: usize| exists|d: int| lo <= d < hi && #[trigger] f@[d] == o,
        ),
        p.rows_shown_between(lo, hi).subset_of(f@.to_set()),
{
    let s = Set::new(|o: usize| exists|d: int| lo <= d < hi && #[trigger] f@[d] == o);
    assert(f@.len() <= usize::MAX) by {
        assert(f.len() == f@.len());
    }
    assert forall|o: usize| p.rows_shown_between(lo, hi).contains(o) implies s.contains(o) by {
        let d = choose|d: usize| lo <= d < hi && #[trigger] p.original_row_index(d) == Some(o);
        assert(f@[d as int] == o);
    }
    assert forall|o: usize| s.contains(o) implies p.rows_shown_between(lo, hi).contains(o) by {
        let d = choose|d: int| lo <= d < hi && #[trigger] f@[d] == o;
        let e = d as usize;
        assert(e as int == d);
        assert(p.original_row_index(e) == Some(o));
        assert(lo <= e < hi);
    }
    assert(p.rows_shown_between(lo, hi) =~= s);
    assert forall|o: usize| s.contains(o) implies f@.to_set().contains(o) by {
        let d = choose|d: int| lo <= d < hi && #[trigger] f@[d] == o;
        assert(f@.contains(o));
    }
}

/// With a column filter and no search, selecting all rows adds exactly
/// the filtered rows to the selection: from an empty selection, the rows
/// selected are the rows shown.
pub proof fn law_select_all_under_filter(a: ContentPanel, b: ContentPanel, f: Vec<usize>)
    requires
        a.query_result is Some,
        a.result_search_indices is None,
        a.filter_indices == Some(f),
        b.selection() == a.selection().union(a.rows_shown_between(0, a.selectable_count() as int)),
    ensures
        b.selection() == a.selection().union(f@.to_set()),
        a.selection().is_empty() ==> b.selection() == f@.to_set(),
{
    law_filtered_range(a, f, 0, f@.len() as int);
    assert forall|o: usize| f@.to_set().contains(o) implies a.rows_shown_between(0, f@.len() as int).contains(o) by {
        let d = choose|d: int| 0 <= d < f@.len() && f@[d] == o;
        assert(f@[d] == o);
    }
    assert(a.rows_shown_between(0, f@.len() as int) =~= f@.to_set());
    assert(b.selection() =~= a.selection().union(f@.to_set()));
    if a.selection().is_empty() {
        assert(b.selection() =~= f@.to_set());
    }
}

// === Showing cells ===

/// A boolean cell shows as `true` or `false`; a boolean, an array or an
/// object never shows as the null mark `-`, which only null (or the text
/// `-` itself) shows as.
pub proof fn law_bool_cell_text(b: bool, v: JsonValue)
    ensures
        cell_text_of(JsonValue::Bool(b)) == (if b {
            "true"@
        } else {
            "false"@
        }),
        (v is Bool || v is Array || v is Object) ==> cell_text_of(v) != "-"@,
{
    reveal_strlit("true");
    reveal_strlit("false");
    reveal_strlit("-");
    reveal_strlit("[]");
    reveal_strlit("{}");
    reveal_strlit("[");
    reveal_strlit("{");
    match v {
        JsonValue::Array(xs) => {
            assert("[]"@.len() == 2 && "-"@.len() == 1);
            if xs@.len() != 0 {
                let t = "["@ + crate::strings::decimal(xs@.len()) + " items]"@;
                reveal_strlit(" items]");
                assert(cell_text_of(v) == t);
                assert(t.len() > 1);
            }
        },
        JsonValue::Object(kvs) => {
            assert("{}"@.len() == 2 && "-"@.len() == 1);
            if kvs@.len() != 0 {
                let t = "{"@ + crate::strings::decimal(kvs@.len()) + " items}"@;
                reveal_strlit(" items}");
                assert(cell_text_of(v) == t);
                assert(t.len() > 1);
            }
        },
        JsonValue::Bool(c) => {
            assert("-"@.len() == 1);
            assert("true"@.len() == 4 && "false"@.len() == 5);
        },
        _ => {},
    }
}

} // verus!
