//! Rough memory estimates of query results, and splitting data into chunks
//! that stay under a memory limit.
use vstd::prelude::*;
use crate::dup::{Duplicate, same_seq};
use crate::models::{Column, JsonValue, QueryData, QueryResult};
use crate::strings::{append_str, decimal, push_decimal, utf8_len, utf8_len_wide, chars_of};

verus! {

broadcast use vstd::std_specs::vec::group_vec_axioms;

/// Estimated bytes of a JSON value: 8 for null and booleans, 24 for a
/// number, the UTF-8 length plus 24 for a string, the elements plus 24 for
/// an array, keys and values plus 32 for an object.
pub open spec fn value_bytes(v: JsonValue) -> nat
    decreases v, 0nat,
{
    match v {
        JsonValue::Null => 8,
        JsonValue::Bool(_) => 8,
        JsonValue::Number(_) => 24,
        JsonValue::String(s) => utf8_len(s@) + 24,
        JsonValue::Array(xs) => items_bytes(xs@, xs@.len()) + 24,
        JsonValue::Object(kvs) => members_bytes(kvs@, kvs@.len()) + 32,
    }
}

/// Estimated bytes of the first `n` elements.
pub open spec fn items_bytes(xs: Seq<JsonValue>, n: nat) -> nat
    decreases xs, n,
{
    if n == 0 || n > xs.len() {
        0
    } else {
        items_bytes(xs, (n - 1) as nat) + value_bytes(xs[n - 1])
    }
}

/// Estimated bytes of the first `n` members: key length plus value.
pub open spec fn members_bytes(kvs: Seq<(String, JsonValue)>, n: nat) -> nat
    decreases kvs, n,
{
    if n == 0 || n > kvs.len() {
        0
    } else {
        members_bytes(kvs, (n - 1) as nat) + utf8_len(kvs[n - 1].0@) + value_bytes(kvs[n - 1].1)
    }
}

/// Estimated bytes of a row.
pub open spec fn row_bytes(row: Seq<JsonValue>) -> nat {
    items_bytes(row, row.len())
}

/// Estimated bytes of a column description: its three names plus 64.
pub open spec fn column_bytes(c: Column) -> nat {
    utf8_len(c.name@) + utf8_len(c.display_name@) + utf8_len(c.base_type@) + 64
}

/// Estimated bytes of the first `n` columns.
pub open spec fn columns_bytes(cols: Seq<Column>, n: nat) -> nat
    decreases n,
{
    if n == 0 || n > cols.len() {
        0
    } else {
        columns_bytes(cols, (n - 1) as nat) + column_bytes(cols[n - 1])
    }
}

/// Estimated bytes of the first `n` rows.
pub open spec fn sample_bytes(rows: Seq<Vec<JsonValue>>, n: nat) -> nat
    decreases n,
{
    if n == 0 || n > rows.len() {
        0
    } else {
        sample_bytes(rows, (n - 1) as nat) + row_bytes(rows[n - 1]@)
    }
}

/// Rows are estimated from at most the first 100: their average size
/// times the number of rows, plus 8 bytes per cell.
pub open spec fn sample_count(rows: Seq<Vec<JsonValue>>) -> nat {
    if rows.len() < 100 {
        rows.len()
    } else {
        100
    }
}

/// Estimated bytes of all rows.
pub open spec fn rows_bytes(rows: Seq<Vec<JsonValue>>, ncols: nat) -> nat {
    if rows.len() == 0 {
        0
    } else {
        let avg = sample_bytes(rows, sample_count(rows)) / sample_count(rows);
        avg * rows.len() + ncols * 8 * rows.len()
    }
}

/// Whole megabytes, at least one.
pub open spec fn megabytes(bytes: nat) -> nat {
    if bytes / 1048576 >= 1 {
        bytes / 1048576
    } else {
        1
    }
}

/// Estimated bytes of a result's columns and rows.
pub open spec fn data_bytes(q: QueryData) -> nat {
    columns_bytes(q.cols@, q.cols@.len()) + rows_bytes(q.rows@, q.cols@.len())
}

/// Estimated megabytes of a result: columns and rows plus a tenth.
pub open spec fn result_mb(q: QueryData) -> nat {
    megabytes(data_bytes(q) + data_bytes(q) / 10)
}

/// The estimates of a result fit in `usize` (they stay below the memory
/// the result occupies).
pub open spec fn estimates_fit(q: QueryData) -> bool {
    &&& data_bytes(q) + data_bytes(q) / 10 <= usize::MAX
    &&& sample_bytes(q.rows@, sample_count(q.rows@)) <= usize::MAX
    &&& forall|i: int| 0 <= i < q.rows@.len() ==> row_bytes(#[trigger] q.rows@[i]@) <= usize::MAX
}

proof fn lemma_items_mono(xs: Seq<JsonValue>, a: nat, b: nat)
    requires
        a <= b <= xs.len(),
    ensures
        items_bytes(xs, a) <= items_bytes(xs, b),
    decreases b,
{
    if a < b {
        lemma_items_mono(xs, a, (b - 1) as nat);
    }
}

proof fn lemma_item_within(xs: Seq<JsonValue>, i: nat, n: nat)
    requires
        i < n <= xs.len(),
    ensures
        items_bytes(xs, i) + value_bytes(xs[i as int]) <= items_bytes(xs, n),
{
    lemma_items_mono(xs, i + 1, n);
}

proof fn lemma_members_mono(kvs: Seq<(String, JsonValue)>, a: nat, b: nat)
    requires
        a <= b <= kvs.len(),
    ensures
        members_bytes(kvs, a) <= members_bytes(kvs, b),
    decreases b,
{
    if a < b {
        lemma_members_mono(kvs, a, (b - 1) as nat);
    }
}

/// Estimate the bytes of a JSON value.
pub fn estimate_value_memory(value: &JsonValue) -> (r: usize)
    requires
        value_bytes(*value) <= usize::MAX,
    ensures
        r == value_bytes(*value),
    decreases value,
{
    match value {
        JsonValue::Null => 8,
        JsonValue::Bool(_) => 8,
        JsonValue::Number(_) => 24,
        JsonValue::String(s) => {
            let n = utf8_len_wide(&chars_of(s.as_str()));
            (n as usize) + 24
        },
        JsonValue::Array(xs) => {
            let mut total: usize = 0;
            let mut i: usize = 0;
            assert forall|k: int| 0 <= k < xs.len() implies decreases_to!(*value => xs[k]) by {}
            while i < xs.len()
                invariant
                    forall|k: int| 0 <= k < xs.len() ==> decreases_to!(*value => xs[k]),
                    value_bytes(*value) <= usize::MAX,
                    *value == JsonValue::Array(*xs),
                    0 <= i <= xs@.len(),
                    total == items_bytes(xs@, i as nat),
                decreases xs@.len() - i,
            {
                proof {
                    lemma_item_within(xs@, i as nat, xs@.len());
                }
                assert(decreases_to!(*value => xs[i as int]));
                let b = estimate_value_memory(&xs[i]);
                total = total + b;
                i = i + 1;
            }
            total + 24
        },
        JsonValue::Object(kvs) => {
            let mut total: usize = 0;
            let mut i: usize = 0;
            assert forall|k: int| 0 <= k < kvs.len() implies decreases_to!(*value => kvs[k].1) by {}
            while i < kvs.len()
                invariant
                    forall|k: int| 0 <= k < kvs.len() ==> decreases_to!(*value => kvs[k].1),
                    value_bytes(*value) <= usize::MAX,
                    *value == JsonValue::Object(*kvs),
                    0 <= i <= kvs@.len(),
                    total == members_bytes(kvs@, i as nat),
                decreases kvs@.len() - i,
            {
                proof {
                    lemma_members_mono(kvs@, (i + 1) as nat, kvs@.len());
                }
                assert(decreases_to!(*value => kvs[i as int].1));
                let k = utf8_len_wide(&chars_of(kvs[i].0.as_str()));
                let b = estimate_value_memory(&kvs[i].1);
                total = total + (k as usize) + b;
                i = i + 1;
            }
            total + 32
        },
    }
}

/// The estimate of a JSON value when it fits in `usize`; `None` when it
/// does not.
pub fn checked_value_bytes(value: &JsonValue) -> (r: Option<usize>)
    ensures
        match r {
            Some(n) => n == value_bytes(*value),
            None => value_bytes(*value) > usize::MAX,
        },
    decreases value,
{
    match value {
        JsonValue::Null => Some(8),
        JsonValue::Bool(_) => Some(8),
        JsonValue::Number(_) => Some(24),
        JsonValue::String(s) => {
            let n = utf8_len_wide(&chars_of(s.as_str()));
            if n > (usize::MAX - 24) as u128 {
                None
            } else {
                Some((n as usize) + 24)
            }
        },
        JsonValue::Array(xs) => {
            let mut total: usize = 0;
            let mut i: usize = 0;
            assert forall|k: int| 0 <= k < xs.len() implies decreases_to!(*value => xs[k]) by {}
            while i < xs.len()
                invariant
                    forall|k: int| 0 <= k < xs.len() ==> decreases_to!(*value => xs[k]),
                    *value == JsonValue::Array(*xs),
                    0 <= i <= xs@.len(),
                    total == items_bytes(xs@, i as nat),
                decreases xs@.len() - i,
            {
                proof {
                    lemma_item_within(xs@, i as nat, xs@.len());
                }
                assert(decreases_to!(*value => xs[i as int]));
                match checked_value_bytes(&xs[i]) {
                    Some(b) => {
                        if b > usize::MAX - total {
                            return None;
                        }
                        total = total + b;
                    },
                    None => {
                        return None;
                    },
                }
                i = i + 1;
            }
            if total > usize::MAX - 24 {
                None
            } else {
                Some(total + 24)
            }
        },
        JsonValue::Object(kvs) => {
            let mut total: usize = 0;
            let mut i: usize = 0;
            assert forall|k: int| 0 <= k < kvs.len() implies decreases_to!(*value => kvs[k].1) by {}
            while i < kvs.len()
                invariant
                    forall|k: int| 0 <= k < kvs.len() ==> decreases_to!(*value => kvs[k].1),
                    *value == JsonValue::Object(*kvs),
                    0 <= i <= kvs@.len(),
                    total == members_bytes(kvs@, i as nat),
                decreases kvs@.len() - i,
            {
                proof {
                    lemma_members_mono(kvs@, (i + 1) as nat, kvs@.len());
                }
                assert(decreases_to!(*value => kvs[i as int].1));
                let k = utf8_len_wide(&chars_of(kvs[i].0.as_str()));
                if k > (usize::MAX - total) as u128 {
                    return None;
                }
                let with_key = total + (k as usize);
                match checked_value_bytes(&kvs[i].1) {
                    Some(b) => {
                        if b > usize::MAX - with_key {
                            return None;
                        }
                        total = with_key + b;
                    },
                    None => {
                        return None;
                    },
                }
                i = i + 1;
            }
            if total > usize::MAX - 32 {
                None
            } else {
                Some(total + 32)
            }
        },
    }
}

/// The estimate of a row when it fits in `usize`; `None` when it does not.
pub fn checked_row_bytes(row: &Vec<JsonValue>) -> (r: Option<usize>)
    ensures
        match r {
            Some(n) => n == row_bytes(row@),
            None => row_bytes(row@) > usize::MAX,
        },
{
    let mut total: usize = 0;
    let mut i: usize = 0;
    while i < row.len()
        invariant
            0 <= i <= row@.len(),
            total == items_bytes(row@, i as nat),
        decreases row@.len() - i,
    {
        proof {
            lemma_item_within(row@, i as nat, row@.len());
        }
        match checked_value_bytes(&row[i]) {
            Some(b) => {
                if b > usize::MAX - total {
                    return None;
                }
                total = total + b;
            },
            None => {
                return None;
            },
        }
        i = i + 1;
    }
    Some(total)
}

/// The estimate of the column descriptions, which always fits in `u128`.
fn wide_columns_bytes(columns: &Vec<Column>) -> (r: Option<u128>)
    ensures
        match r {
            Some(n) => n == columns_bytes(columns@, columns@.len()),
            None => columns_bytes(columns@, columns@.len()) > usize::MAX,
        },
{
    let mut total: u128 = 0;
    let mut i: usize = 0;
    while i < columns.len()
        invariant
            0 <= i <= columns@.len(),
            total == columns_bytes(columns@, i as nat),
            total <= usize::MAX,
        decreases columns@.len() - i,
    {
        proof {
            lemma_columns_mono(columns@, (i + 1) as nat, columns@.len());
        }
        let c = &columns[i];
        let a = utf8_len_wide(&chars_of(c.name.as_str()));
        let b = utf8_len_wide(&chars_of(c.display_name.as_str()));
        let d = utf8_len_wide(&chars_of(c.base_type.as_str()));
        if a > usize::MAX as u128 || b > usize::MAX as u128 || d > usize::MAX as u128 {
            return None;
        }
        let next = total + a + b + d + 64;
        if next > usize::MAX as u128 {
            return None;
        }
        total = next;
        i = i + 1;
    }
    Some(total)
}

/// Whether the estimates of a result fit in `usize` (see `estimates_fit`):
/// to be asked before estimating.
pub fn check_estimates_fit(data: &QueryData) -> (r: bool)
    ensures
        r == estimates_fit(*data),
{
    let rows = &data.rows;
    let n = rows.len();
    let mut i: usize = 0;
    while i < n
        invariant
            rows@ == data.rows@,
            n == rows@.len(),
            0 <= i <= n,
            forall|k: int| 0 <= k < i ==> row_bytes(#[trigger] rows@[k]@) <= usize::MAX,
        decreases n - i,
    {
        if checked_row_bytes(&rows[i]).is_none() {
            assert(!estimates_fit(*data)) by {
                assert(row_bytes(data.rows@[i as int]@) > usize::MAX);
            }
            return false;
        }
        i = i + 1;
    }
    let sample = if n < 100 { n } else { 100 };
    let mut sample_memory: u128 = 0;
    let mut j: usize = 0;
    while j < sample
        invariant
            rows@ == data.rows@,
            n == rows@.len(),
            sample == sample_count(rows@),
            sample <= n,
            0 <= j <= sample,
            forall|k: int| 0 <= k < n ==> row_bytes(#[trigger] rows@[k]@) <= usize::MAX,
            sample_memory == sample_bytes(rows@, j as nat),
            sample_memory <= usize::MAX,
        decreases sample - j,
    {
        proof {
            lemma_sample_mono(rows@, (j + 1) as nat, sample as nat);
        }
        assert(row_bytes(rows@[j as int]@) <= usize::MAX);
        let b = match checked_row_bytes(&rows[j]) {
            Some(b) => b,
            None => {
                return false;
            },
        };
        let next = sample_memory + b as u128;
        if next > usize::MAX as u128 {
            assert(!estimates_fit(*data)) by {
                assert(sample_bytes(rows@, (j + 1) as nat) == next);
                assert(sample_bytes(rows@, sample_count(rows@)) >= next);
            }
            return false;
        }
        sample_memory = next;
        j = j + 1;
    }
    let cols = match wide_columns_bytes(&data.cols) {
        Some(c) => c,
        None => {
            return false;
        },
    };
    let ncols = data.cols.len() as u128;
    let rows_part: u128 = if n == 0 {
        0
    } else {
        let avg = sample_memory / (sample as u128);
        let count = n as u128;
        let a = match avg.checked_mul(count) {
            Some(a) => a,
            None => {
                return false;
            },
        };
        let b = match (ncols * 8).checked_mul(count) {
            Some(b) => b,
            None => {
                return false;
            },
        };
        match a.checked_add(b) {
            Some(t) => t,
            None => {
                return false;
            },
        }
    };
    assert(rows_part == rows_bytes(rows@, data.cols@.len()));
    let total = match cols.checked_add(rows_part) {
        Some(t) => t,
        None => {
            return false;
        },
    };
    let tenth = total / 10;
    match total.checked_add(tenth) {
        Some(d) => d <= usize::MAX as u128,
        None => false,
    }
}

/// Estimated bytes of one row.
pub fn estimate_row_memory(row: &Vec<JsonValue>) -> (r: usize)
    requires
        row_bytes(row@) <= usize::MAX,
    ensures
        r == row_bytes(row@),
{
    let mut total: usize = 0;
    let mut i: usize = 0;
    while i < row.len()
        invariant
            row_bytes(row@) <= usize::MAX,
            0 <= i <= row@.len(),
            total == items_bytes(row@, i as nat),
        decreases row@.len() - i,
    {
        proof {
            lemma_item_within(row@, i as nat, row@.len());
        }
        let b = estimate_value_memory(&row[i]);
        total = total + b;
        i = i + 1;
    }
    total
}

proof fn lemma_columns_mono(cols: Seq<Column>, a: nat, b: nat)
    requires
        a <= b <= cols.len(),
    ensures
        columns_bytes(cols, a) <= columns_bytes(cols, b),
    decreases b,
{
    if a < b {
        lemma_columns_mono(cols, a, (b - 1) as nat);
    }
}

proof fn lemma_sample_mono(rows: Seq<Vec<JsonValue>>, a: nat, b: nat)
    requires
        a <= b <= rows.len(),
    ensures
        sample_bytes(rows, a) <= sample_bytes(rows, b),
    decreases b,
{
    if a < b {
        lemma_sample_mono(rows, a, (b - 1) as nat);
    }
}

/// Estimated bytes of the column descriptions.
pub fn estimate_columns_memory(columns: &Vec<Column>) -> (r: usize)
    requires
        columns_bytes(columns@, columns@.len()) <= usize::MAX,
    ensures
        r == columns_bytes(columns@, columns@.len()),
{
    let mut total: usize = 0;
    let mut i: usize = 0;
    while i < columns.len()
        invariant
            columns_bytes(columns@, columns@.len()) <= usize::MAX,
            0 <= i <= columns@.len(),
            total == columns_bytes(columns@, i as nat),
        decreases columns@.len() - i,
    {
        proof {
            lemma_columns_mono(columns@, (i + 1) as nat, columns@.len());
        }
        let c = &columns[i];
        let a = utf8_len_wide(&chars_of(c.name.as_str()));
        let b = utf8_len_wide(&chars_of(c.display_name.as_str()));
        let d = utf8_len_wide(&chars_of(c.base_type.as_str()));
        total = total + (a as usize) + (b as usize) + (d as usize) + 64;
        i = i + 1;
    }
    total
}

/// Estimated bytes of the rows, from the average of the first 100.
pub fn estimate_rows_memory(rows: &Vec<Vec<JsonValue>>, ncols: usize) -> (r: usize)
    requires
        rows_bytes(rows@, ncols as nat) <= usize::MAX,
        sample_bytes(rows@, sample_count(rows@)) <= usize::MAX,
        forall|i: int| 0 <= i < rows@.len() ==> row_bytes(#[trigger] rows@[i]@) <= usize::MAX,
    ensures
        r == rows_bytes(rows@, ncols as nat),
{
    if rows.len() == 0 {
        return 0;
    }
    let sample_size = if rows.len() < 100 { rows.len() } else { 100 };
    let mut sample_memory: usize = 0;
    let mut i: usize = 0;
    while i < sample_size
        invariant
            sample_size == sample_count(rows@),
            sample_size <= rows@.len(),
            sample_bytes(rows@, sample_count(rows@)) <= usize::MAX,
            forall|k: int| 0 <= k < rows@.len() ==> row_bytes(#[trigger] rows@[k]@) <= usize::MAX,
            0 <= i <= sample_size,
            sample_memory == sample_bytes(rows@, i as nat),
        decreases sample_size - i,
    {
        proof {
            lemma_sample_mono(rows@, (i + 1) as nat, sample_size as nat);
        }
        assert(row_bytes(rows@[i as int]@) <= usize::MAX);
        let b = estimate_row_memory(&rows[i]);
        sample_memory = sample_memory + b;
        i = i + 1;
    }
    let avg = sample_memory / sample_size;
    let n = rows.len();
    assert(avg * n <= avg * n + ncols * 8 * n) by (nonlinear_arith)
        requires
            avg >= 0,
            ncols >= 0,
            n >= 0,
    ;
    assert(ncols * 8 * n <= avg * n + ncols * 8 * n) by (nonlinear_arith)
        requires
            avg >= 0,
            ncols >= 0,
            n >= 0,
    ;
    assert(ncols * 8 <= ncols * 8 * n) by (nonlinear_arith)
        requires
            n >= 1,
    ;
    avg * n + ncols * 8 * n
}

/// Whole megabytes of a byte count, at least one.
pub fn bytes_to_mb(bytes: usize) -> (r: usize)
    ensures
        r == megabytes(bytes as nat),
{
    let mb = bytes / 1024 / 1024;
    if mb >= 1 {
        mb
    } else {
        1
    }
}

/// Rough memory estimates of query results.
pub struct MemoryEstimator;

/// Estimated memory use of a result, by part.
#[derive(Debug, Clone)]
pub struct MemoryReport {
    pub columns_memory_mb: usize,
    pub rows_memory_mb: usize,
    pub total_memory_mb: usize,
    pub row_count: usize,
    pub column_count: usize,
    pub avg_row_size_bytes: usize,
}

/// `r` is `result` split into chunks of `chunk_size` rows: the result
/// itself when it has no more rows than that; else consecutive pieces of
/// `chunk_size` rows (the last one shorter), each with all the columns.
pub open spec fn chunked(result: QueryResult, chunk_size: usize, r: Seq<QueryResult>) -> bool {
    let n = result.data.rows@.len();
    &&& chunk_size >= n ==> r.len() == 1 && r[0].same(&result)
    &&& chunk_size < n ==> {
        &&& r.len() == (n + chunk_size - 1) / chunk_size as int
        &&& forall|k: int|
            0 <= k < r.len() ==> {
                let start = k * chunk_size;
                let end = if start + chunk_size < n {
                    start + chunk_size
                } else {
                    n as int
                };
                &&& (#[trigger] r[k]).data.cols.same(&result.data.cols)
                &&& same_seq(r[k].data.rows@, result.data.rows@.subrange(start, end))
            }
    }
}

impl MemoryEstimator {
    /// Whole megabytes of a byte count, at least one.
    pub fn bytes_to_mb(bytes: usize) -> (r: usize)
        ensures
            r == megabytes(bytes as nat),
    {
        bytes_to_mb(bytes)
    }

    /// Estimated megabytes of a result: columns and rows plus a tenth for
    /// overhead, at least one.
    pub fn estimate_query_result_memory(result: &QueryResult) -> (r: usize)
        requires
            estimates_fit(result.data),
        ensures
            r == result_mb(result.data),
    {
        let (c, r) = Self::parts(result);
        let sum = c + r;
        bytes_to_mb(sum + sum / 10)
    }

    fn parts(result: &QueryResult) -> (r: (usize, usize))
        requires
            estimates_fit(result.data),
        ensures
            r.0 == columns_bytes(result.data.cols@, result.data.cols@.len()),
            r.1 == rows_bytes(result.data.rows@, result.data.cols@.len()),
    {
        let c = estimate_columns_memory(&result.data.cols);
        let r = estimate_rows_memory(&result.data.rows, result.data.cols.len());
        (c, r)
    }

    /// Whether the estimate is within a limit in megabytes.
    pub fn is_within_memory_limit(result: &QueryResult, limit_mb: usize) -> (r: bool)
        requires
            estimates_fit(result.data),
        ensures
            r == (result_mb(result.data) <= limit_mb),
    {
        Self::estimate_query_result_memory(result) <= limit_mb
    }

    /// The chunk size when it needs no scaling: zero rows for an empty
    /// result, all rows when the estimate is within the limit; `None` when
    /// the rows must be scaled down to the limit.
    pub fn unscaled_chunk_size(result: &QueryResult, memory_limit_mb: usize) -> (r: Option<usize>)
        requires
            estimates_fit(result.data),
        ensures
            result.data.rows@.len() == 0 ==> r == Some(0usize),
            result.data.rows@.len() > 0 && result_mb(result.data) <= memory_limit_mb ==> r == Some(
                result.data.rows@.len() as usize,
            ),
            result.data.rows@.len() > 0 && result_mb(result.data) > memory_limit_mb ==> r is None,
    {
        let total_rows = result.data.rows.len();
        if total_rows == 0 {
            return Some(0);
        }
        let estimated_total_mb = Self::estimate_query_result_memory(result);
        if estimated_total_mb <= memory_limit_mb {
            return Some(total_rows);
        }
        None
    }

    /// Split a result into results of at most `chunk_size` rows each (the
    /// columns repeated in each); the whole result when it is not larger.
    /// The chunks keep every row, in order (`law_chunks_keep_rows`).
    pub fn chunk_query_result_by(result: &QueryResult, chunk_size: usize) -> (r: Vec<QueryResult>)
        requires
            chunk_size > 0 || result.data.rows@.len() == 0,
        ensures
            chunked(*result, chunk_size, r@),
    {
        let n = result.data.rows.len();
        if chunk_size >= n {
            let mut v: Vec<QueryResult> = Vec::new();
            v.push(result.duplicate());
            return v;
        }
        let mut chunks: Vec<QueryResult> = Vec::new();
        let mut start: usize = 0;
        let mut k: usize = 0;
        let ghost c = chunk_size as int;
        while start < n
            invariant
                n == result.data.rows@.len(),
                c == chunk_size as int,
                0 < chunk_size < n,
                start <= n,
                k <= n,
                (start < n && start == k * c) || (start == n && k == (n + c - 1) / c),
                chunks@.len() == k,
                forall|j: int|
                    0 <= j < k ==> {
                        let s = j * chunk_size;
                        let e = if s + chunk_size < n {
                            s + chunk_size
                        } else {
                            n as int
                        };
                        &&& (#[trigger] chunks@[j]).data.cols.same(&result.data.cols)
                        &&& same_seq(chunks@[j].data.rows@, result.data.rows@.subrange(s, e))
                    },
            decreases n - start,
        {
            let end = if chunk_size < n - start { start + chunk_size } else { n };
            let mut rows: Vec<Vec<JsonValue>> = Vec::new();
            let mut i = start;
            while i < end
                invariant
                    start <= i <= end <= n,
                    n == result.data.rows@.len(),
                    rows@.len() == i - start,
                    forall|j: int|
                        0 <= j < rows@.len() ==> (#[trigger] rows@[j]).same(
                            &result.data.rows@[start + j],
                        ),
                decreases end - i,
            {
                rows.push(result.data.rows[i].duplicate());
                i = i + 1;
            }
            chunks.push(QueryResult { data: QueryData { cols: result.data.cols.duplicate(), rows } });
            proof {
                assert(start + c == (k + 1) * c) by (nonlinear_arith)
                    requires
                        start == k * c,
                ;
                if end == n {
                    assert(k * c < n);
                    assert((k + 1) * c >= n);
                    assert(k + 1 == (n + c - 1) / c) by (nonlinear_arith)
                        requires
                            k * c < n,
                            (k + 1) * c >= n,
                            c > 0,
                    ;
                }
                assert(k + 1 <= n) by (nonlinear_arith)
                    requires
                        k * c < n,
                        c > 0,
                ;
            }
            start = end;
            k = k + 1;
        }
        chunks
    }

    /// Detailed estimate of a result.
    pub fn generate_memory_report(result: &QueryResult) -> (r: MemoryReport)
        requires
            estimates_fit(result.data),
        ensures
            r.columns_memory_mb == megabytes(columns_bytes(result.data.cols@, result.data.cols@.len())),
            r.rows_memory_mb == megabytes(rows_bytes(result.data.rows@, result.data.cols@.len())),
            r.total_memory_mb == megabytes(data_bytes(result.data)),
            r.row_count == result.data.rows@.len(),
            r.column_count == result.data.cols@.len(),
            r.avg_row_size_bytes == if result.data.rows@.len() > 0 {
                rows_bytes(result.data.rows@, result.data.cols@.len()) / result.data.rows@.len()
            } else {
                0
            },
    {
        let (c, rows_memory) = Self::parts(result);
        let total = c + rows_memory;
        let n = result.data.rows.len();
        MemoryReport {
            columns_memory_mb: bytes_to_mb(c),
            rows_memory_mb: bytes_to_mb(rows_memory),
            total_memory_mb: bytes_to_mb(total),
            row_count: n,
            column_count: result.data.cols.len(),
            avg_row_size_bytes: if n > 0 {
                rows_memory / n
            } else {
                0
            },
        }
    }
}

/// The report's text.
pub open spec fn report_text(r: MemoryReport) -> Seq<char> {
    "📊 Memory Usage Report:\n├─ Total: "@ + decimal(r.total_memory_mb as nat) + "MB\n├─ Columns: "@
        + decimal(r.columns_memory_mb as nat) + "MB ("@ + decimal(r.column_count as nat)
        + " columns)\n├─ Rows: "@ + decimal(r.rows_memory_mb as nat) + "MB ("@ + decimal(
        r.row_count as nat,
    ) + " rows)\n└─ Avg row size: "@ + decimal(r.avg_row_size_bytes as nat) + " bytes"@
}

impl MemoryReport {
    /// The report as lines of text.
    pub fn to_display_string(&self) -> (r: String)
        ensures
            r@ == report_text(*self),
    {
        let mut s = String::new();
        append_str(&mut s, "📊 Memory Usage Report:\n├─ Total: ");
        push_decimal(&mut s, self.total_memory_mb as u64);
        append_str(&mut s, "MB\n├─ Columns: ");
        push_decimal(&mut s, self.columns_memory_mb as u64);
        append_str(&mut s, "MB (");
        push_decimal(&mut s, self.column_count as u64);
        append_str(&mut s, " columns)\n├─ Rows: ");
        push_decimal(&mut s, self.rows_memory_mb as u64);
        append_str(&mut s, "MB (");
        push_decimal(&mut s, self.row_count as u64);
        append_str(&mut s, " rows)\n└─ Avg row size: ");
        push_decimal(&mut s, self.avg_row_size_bytes as u64);
        append_str(&mut s, " bytes");
        s
    }
}

} // verus!
