//! Row selection over query results: the all-column search, the one-column
//! filter, and the stable ordering of rows by one column.
use vstd::prelude::*;
use crate::strings::{chars_of, contains_chars, contains_seq, lowercase, to_lowercase};

verus! {

broadcast use vstd::std_specs::vec::group_vec_axioms;

// === Matching ===

/// A cell matches a search text when its lower-cased text contains the
/// lower-cased search text.
pub open spec fn cell_hit(cell: Seq<char>, needle: Seq<char>) -> bool {
    contains_seq(lowercase(cell), lowercase(needle))
}

/// Some cell of the row matches.
pub open spec fn row_hit(row: Seq<String>, needle: Seq<char>) -> bool {
    exists|j: int| 0 <= j < row.len() && cell_hit((#[trigger] row[j])@, needle)
}

/// Indices, in order, of the rows with a matching cell.
pub open spec fn search_hits(rows: Seq<Vec<String>>, needle: Seq<char>) -> Seq<usize>
    decreases rows.len(),
{
    if rows.len() == 0 {
        Seq::empty()
    } else {
        let prev = search_hits(rows.drop_last(), needle);
        if row_hit(rows.last()@, needle) {
            prev.push((rows.len() - 1) as usize)
        } else {
            prev
        }
    }
}

/// Row `i` exists, has a cell in column `col`, and that cell matches.
pub open spec fn column_hit(rows: Seq<Vec<String>>, i: usize, col: nat, needle: Seq<char>) -> bool {
    &&& i < rows.len()
    &&& col < rows[i as int]@.len()
    &&& cell_hit(rows[i as int]@[col as int]@, needle)
}

/// The indices of `base`, in order, whose row matches in column `col`.
pub open spec fn filter_hits(rows: Seq<Vec<String>>, base: Seq<usize>, col: nat, needle: Seq<char>) -> Seq<usize>
    decreases base.len(),
{
    if base.len() == 0 {
        Seq::empty()
    } else {
        let prev = filter_hits(rows, base.drop_last(), col, needle);
        if column_hit(rows, base.last(), col, needle) {
            prev.push(base.last())
        } else {
            prev
        }
    }
}

/// `0, 1, ..., n - 1`.
pub open spec fn index_range(n: nat) -> Seq<usize> {
    Seq::new(n, |i: int| i as usize)
}

/// Every index is below `n`.
pub open spec fn indices_within(v: Seq<usize>, n: nat) -> bool {
    forall|k: int| 0 <= k < v.len() ==> (#[trigger] v[k]) < n
}

pub proof fn lemma_search_hits_within(rows: Seq<Vec<String>>, needle: Seq<char>)
    ensures
        indices_within(search_hits(rows, needle), rows.len()),
        search_hits(rows, needle).len() <= rows.len(),
    decreases rows.len(),
{
    if rows.len() > 0 {
        lemma_search_hits_within(rows.drop_last(), needle);
    }
}

pub proof fn lemma_filter_hits_within(rows: Seq<Vec<String>>, base: Seq<usize>, col: nat, needle: Seq<char>)
    ensures
        indices_within(filter_hits(rows, base, col, needle), rows.len()),
        filter_hits(rows, base, col, needle).len() <= base.len(),
    decreases base.len(),
{
    if base.len() > 0 {
        lemma_filter_hits_within(rows, base.drop_last(), col, needle);
    }
}

fn chars_hit(cell: &str, needle_lower: &Vec<char>) -> (r: bool)
    ensures
        r == contains_seq(lowercase(cell@), needle_lower@),
{
    let lowered = to_lowercase(cell);
    let lc = chars_of(lowered.as_str());
    contains_chars(&lc, needle_lower)
}

fn row_matches(row: &Vec<String>, needle_lower: &Vec<char>, Ghost(needle): Ghost<Seq<char>>) -> (r: bool)
    requires
        needle_lower@ == lowercase(needle),
    ensures
        r == row_hit(row@, needle),
{
    let mut j: usize = 0;
    while j < row.len()
        invariant
            needle_lower@ == lowercase(needle),
            0 <= j <= row@.len(),
            forall|k: int| 0 <= k < j ==> !cell_hit((#[trigger] row@[k])@, needle),
        decreases row@.len() - j,
    {
        if chars_hit(row[j].as_str(), needle_lower) {
            assert(cell_hit(row@[j as int]@, needle));
            return true;
        }
        j = j + 1;
    }
    false
}

/// The indices of the rows where some cell contains `text`, ignoring case.
pub fn search_rows(rows: &Vec<Vec<String>>, text: &str) -> (out: Vec<usize>)
    ensures
        out@ == search_hits(rows@, text@),
        indices_within(out@, rows@.len()),
        out@.len() <= rows@.len(),
{
    let lowered = to_lowercase(text);
    let needle = chars_of(lowered.as_str());
    let mut out: Vec<usize> = Vec::new();
    let mut i: usize = 0;
    while i < rows.len()
        invariant
            needle@ == lowercase(text@),
            0 <= i <= rows@.len(),
            out@ == search_hits(rows@.take(i as int), text@),
        decreases rows@.len() - i,
    {
        let ghost before = rows@.take(i as int);
        assert(rows@.take(i + 1).drop_last() =~= before);
        if row_matches(&rows[i], &needle, Ghost(text@)) {
            out.push(i);
        }
        i = i + 1;
    }
    assert(rows@.take(rows@.len() as int) =~= rows@);
    proof {
        lemma_search_hits_within(rows@, text@);
    }
    out
}

/// The indices of `base` whose row has, in column `col`, a cell containing
/// `text`, ignoring case; indices without such a cell are dropped.
pub fn filter_rows(rows: &Vec<Vec<String>>, base: &Vec<usize>, col: usize, text: &str) -> (out: Vec<usize>)
    ensures
        out@ == filter_hits(rows@, base@, col as nat, text@),
        indices_within(out@, rows@.len()),
        out@.len() <= base@.len(),
{
    let lowered = to_lowercase(text);
    let needle = chars_of(lowered.as_str());
    let mut out: Vec<usize> = Vec::new();
    let mut k: usize = 0;
    while k < base.len()
        invariant
            needle@ == lowercase(text@),
            0 <= k <= base@.len(),
            out@ == filter_hits(rows@, base@.take(k as int), col as nat, text@),
        decreases base@.len() - k,
    {
        let ghost before = base@.take(k as int);
        assert(base@.take(k + 1).drop_last() =~= before);
        assert(base@.take(k + 1).last() == base@[k as int]);
        let i = base[k];
        if i < rows.len() && col < rows[i].len() {
            if chars_hit(rows[i][col].as_str(), &needle) {
                out.push(i);
            }
        }
        k = k + 1;
    }
    assert(base@.take(base@.len() as int) =~= base@);
    proof {
        lemma_filter_hits_within(rows@, base@, col as nat, text@);
    }
    out
}

/// `0, 1, ..., n - 1` as a vector.
pub fn range_vec(n: usize) -> (out: Vec<usize>)
    ensures
        out@ == index_range(n as nat),
{
    let mut out: Vec<usize> = Vec::new();
    let mut i: usize = 0;
    while i < n
        invariant
            0 <= i <= n,
            out@ =~= index_range(i as nat),
        decreases n - i,
    {
        out.push(i);
        i = i + 1;
    }
    out
}

// === Ordering ===

/// The outcome of comparing two cells.
#[derive(Debug, Clone, Copy, PartialEq, Eq, Structural)]
pub enum CellOrder {
    Less,
    Equal,
    Greater,
}

/// How a cell's text reads as a floating-point number: not at all, as a
/// number (given by an integer that orders the numbers as the floating-point
/// values are ordered, equal values having equal integers), or as NaN.
#[derive(Debug, Clone, Copy, PartialEq, Eq, Structural)]
pub enum CellNumber {
    Text,
    Number(i64),
    NotANumber,
}

/// The opposite outcome.
pub open spec fn flip(o: CellOrder) -> CellOrder {
    match o {
        CellOrder::Less => CellOrder::Greater,
        CellOrder::Equal => CellOrder::Equal,
        CellOrder::Greater => CellOrder::Less,
    }
}

/// Lexicographic order of characters by code point (which is the byte-wise
/// order of their UTF-8 encodings, the order of `str`).
pub open spec fn text_order(a: Seq<char>, b: Seq<char>) -> CellOrder
    decreases a.len(),
{
    if a.len() == 0 {
        if b.len() == 0 {
            CellOrder::Equal
        } else {
            CellOrder::Less
        }
    } else if b.len() == 0 {
        CellOrder::Greater
    } else if (a[0] as int) < (b[0] as int) {
        CellOrder::Less
    } else if (a[0] as int) > (b[0] as int) {
        CellOrder::Greater
    } else {
        text_order(a.drop_first(), b.drop_first())
    }
}

/// Order of two integers.
pub open spec fn int_order(x: int, y: int) -> CellOrder {
    if x < y {
        CellOrder::Less
    } else if x > y {
        CellOrder::Greater
    } else {
        CellOrder::Equal
    }
}

/// Order of two cells: numerically when both read as numbers (NaN being
/// equal to everything), else by their text.
pub open spec fn cell_order(a: Seq<char>, an: CellNumber, b: Seq<char>, bn: CellNumber) -> CellOrder {
    if !(an is Text) && !(bn is Text) {
        match (an, bn) {
            (CellNumber::Number(x), CellNumber::Number(y)) => int_order(x as int, y as int),
            _ => CellOrder::Equal,
        }
    } else {
        text_order(a, b)
    }
}

/// The order of two sort keys, reversed for a descending sort.
pub open spec fn key_order(k1: (Seq<char>, CellNumber), k2: (Seq<char>, CellNumber), descending: bool) -> CellOrder {
    let o = cell_order(k1.0, k1.1, k2.0, k2.1);
    if descending {
        flip(o)
    } else {
        o
    }
}

pub proof fn lemma_text_order_flip(a: Seq<char>, b: Seq<char>)
    ensures
        text_order(b, a) == flip(text_order(a, b)),
    decreases a.len(),
{
    if a.len() > 0 && b.len() > 0 && a[0] == b[0] {
        lemma_text_order_flip(a.drop_first(), b.drop_first());
    }
    if a.len() > 0 && b.len() > 0 && a[0] != b[0] {
        assert((a[0] as int) != (b[0] as int));
    }
}

/// Swapping the two keys gives the opposite outcome.
pub proof fn lemma_key_order_flip(k1: (Seq<char>, CellNumber), k2: (Seq<char>, CellNumber), descending: bool)
    ensures
        key_order(k2, k1, descending) == flip(key_order(k1, k2, descending)),
{
    lemma_text_order_flip(k1.0, k2.0);
}

/// The order of two character vectors.
pub fn compare_text(a: &Vec<char>, b: &Vec<char>) -> (r: CellOrder)
    ensures
        r == text_order(a@, b@),
{
    let mut i: usize = 0;
    assert(a@.skip(0) =~= a@);
    assert(b@.skip(0) =~= b@);
    while i < a.len() && i < b.len()
        invariant
            0 <= i <= a@.len(),
            i <= b@.len(),
            text_order(a@, b@) == text_order(a@.skip(i as int), b@.skip(i as int)),
        decreases a@.len() - i,
    {
        let ca = a[i];
        let cb = b[i];
        assert(a@.skip(i as int)[0] == ca);
        assert(b@.skip(i as int)[0] == cb);
        if ca < cb {
            return CellOrder::Less;
        }
        if ca > cb {
            return CellOrder::Greater;
        }
        assert(ca == cb);
        assert(a@.skip(i as int).drop_first() =~= a@.skip(i + 1));
        assert(b@.skip(i as int).drop_first() =~= b@.skip(i + 1));
        i = i + 1;
    }
    if i < a.len() {
        CellOrder::Greater
    } else if i < b.len() {
        CellOrder::Less
    } else {
        CellOrder::Equal
    }
}

/// The text and numeric reading of one cell, by which rows are sorted.
pub struct SortKey {
    pub text: Vec<char>,
    pub number: CellNumber,
}

/// The spec view of a sort key.
pub open spec fn key_of(k: SortKey) -> (Seq<char>, CellNumber) {
    (k.text@, k.number)
}

/// Compare two sort keys.
pub fn compare_keys(k1: &SortKey, k2: &SortKey, descending: bool) -> (r: CellOrder)
    ensures
        r == key_order(key_of(*k1), key_of(*k2), descending),
{
    let o = match (k1.number, k2.number) {
        (CellNumber::Number(x), CellNumber::Number(y)) => {
            if x < y {
                CellOrder::Less
            } else if x > y {
                CellOrder::Greater
            } else {
                CellOrder::Equal
            }
        },
        (CellNumber::Number(_), CellNumber::NotANumber) => CellOrder::Equal,
        (CellNumber::NotANumber, CellNumber::Number(_)) => CellOrder::Equal,
        (CellNumber::NotANumber, CellNumber::NotANumber) => CellOrder::Equal,
        _ => compare_text(&k1.text, &k2.text),
    };
    if descending {
        match o {
            CellOrder::Less => CellOrder::Greater,
            CellOrder::Equal => CellOrder::Equal,
            CellOrder::Greater => CellOrder::Less,
        }
    } else {
        o
    }
}

/// The views of a vector of sort keys.
pub open spec fn keys_view(keys: Seq<SortKey>) -> Seq<(Seq<char>, CellNumber)> {
    keys.map_values(|k: SortKey| key_of(k))
}

/// `out` lists each of `0, ..., n - 1` exactly once.
pub open spec fn is_permutation(out: Seq<usize>, n: nat) -> bool {
    &&& out.len() == n
    &&& forall|p: int| 0 <= p < out.len() ==> (#[trigger] out[p]) < n
    &&& forall|p: int, q: int| 0 <= p < q < out.len() ==> (#[trigger] out[p]) != (#[trigger] out[q])
}

/// Neighbours in `out` are in order by their keys, and neighbours with
/// equal keys keep their original order (a stable sort).
pub open spec fn sorted_by(out: Seq<usize>, keys: Seq<(Seq<char>, CellNumber)>, descending: bool) -> bool {
    forall|p: int, q: int|
        0 <= p && q == p + 1 && q < out.len() ==> key_order(
            keys[#[trigger] out[p] as int],
            keys[#[trigger] out[q] as int],
            descending,
        ) != CellOrder::Greater && (key_order(keys[out[p] as int], keys[out[q] as int], descending)
            == CellOrder::Equal ==> out[p] < out[q])
}

/// The positions of `keys`, stably ordered by key (insertion sort).
pub fn sort_positions(keys: &Vec<SortKey>, descending: bool) -> (out: Vec<usize>)
    ensures
        is_permutation(out@, keys@.len()),
        sorted_by(out@, keys_view(keys@), descending),
{
    let ghost kv = keys_view(keys@);
    let mut out: Vec<usize> = Vec::new();
    let mut i: usize = 0;
    while i < keys.len()
        invariant
            kv == keys_view(keys@),
            0 <= i <= keys@.len(),
            is_permutation(out@, i as nat),
            sorted_by(out@, kv, descending),
        decreases keys@.len() - i,
    {
        let mut j: usize = out.len();
        while j > 0 && compare_keys(&keys[out[j - 1]], &keys[i], descending) == CellOrder::Greater
            invariant
                kv == keys_view(keys@),
                0 <= i < keys@.len(),
                0 <= j <= out@.len(),
                is_permutation(out@, i as nat),
                forall|q: int|
                    j <= q < out@.len() ==> key_order(kv[#[trigger] out@[q] as int], kv[i as int], descending)
                        == CellOrder::Greater,
            decreases j,
        {
            assert(kv[out@[j - 1] as int] == key_of(keys@[out@[j - 1] as int]));
            assert(kv[i as int] == key_of(keys@[i as int]));
            j = j - 1;
        }
        let ghost old_out = out@;
        proof {
            if j > 0 {
                assert(kv[old_out[j - 1] as int] == key_of(keys@[old_out[j - 1] as int]));
                assert(kv[i as int] == key_of(keys@[i as int]));
            }
        }
        out.insert(j, i);
        proof {
            let n = out@;
            assert(n == old_out.insert(j as int, i));
            assert forall|p: int| 0 <= p < n.len() implies (#[trigger] n[p]) < i + 1 by {
                if p < j {
                    assert(n[p] == old_out[p]);
                } else if p > j {
                    assert(n[p] == old_out[p - 1]);
                }
            }
            assert forall|p: int, q: int| 0 <= p < q < n.len() implies (#[trigger] n[p]) != (
            #[trigger] n[q]) by {
                if p < j && q < j {
                    assert(n[p] == old_out[p] && n[q] == old_out[q]);
                } else if p < j && q == j {
                    assert(n[p] == old_out[p]);
                } else if p < j && q > j {
                    assert(n[p] == old_out[p] && n[q] == old_out[q - 1]);
                } else if p == j {
                    assert(n[q] == old_out[q - 1]);
                } else {
                    assert(n[p] == old_out[p - 1] && n[q] == old_out[q - 1]);
                }
            }
            assert forall|p: int, q: int|
                0 <= p && q == p + 1 && q < n.len() implies key_order(
                kv[#[trigger] n[p] as int],
                kv[#[trigger] n[q] as int],
                descending,
            ) != CellOrder::Greater && (key_order(kv[n[p] as int], kv[n[q] as int], descending)
                == CellOrder::Equal ==> n[p] < n[q]) by {
                if q < j {
                    assert(n[p] == old_out[p] && n[q] == old_out[q]);
                } else if q == j {
                    assert(n[p] == old_out[p]);
                    assert(n[q] == i);
                } else if p == j {
                    assert(n[p] == i);
                    assert(n[q] == old_out[p]);
                    lemma_key_order_flip(kv[old_out[p] as int], kv[i as int], descending);
                } else {
                    assert(n[p] == old_out[p - 1] && n[q] == old_out[q - 1]);
                }
            }
        }
        i = i + 1;
    }
    out
}

} // verus!
