//! Offsets into query results.
use vstd::prelude::*;
use crate::dup::{Duplicate, same_seq};
use crate::error::{AppError, DisplayError};
use crate::models::{QueryData, QueryResult};
use crate::strings::{append_str, decimal, push_decimal};

verus! {

/// Skips the first rows of a result (the `--offset` option).
#[derive(Debug, Clone)]
pub struct OffsetManager {
    pub offset: usize,
}

/// The message of the out-of-range offset error.
pub open spec fn offset_error_message(offset: nat, max: nat) -> Seq<char> {
    "Offset "@ + decimal(offset) + " is out of range (max: "@ + decimal(max) + ")"@
}

/// The error for an offset beyond the last record.
pub open spec fn is_offset_error(e: AppError, offset: nat, max: nat) -> bool {
    e matches AppError::Display(DisplayError::Pagination(m)) && m@ == offset_error_message(
        offset,
        max,
    )
}

impl OffsetManager {
    /// An offset manager; no offset means zero.
    pub fn new(offset: Option<usize>) -> (r: Self)
        ensures
            r.offset == match offset {
                Some(o) => o,
                None => 0,
            },
    {
        OffsetManager {
            offset: match offset {
                Some(o) => o,
                None => 0,
            },
        }
    }

    /// The result without its first `offset` rows; an error when the offset
    /// is beyond the number of rows.
    pub fn apply_offset(&self, result: &QueryResult) -> (r: Result<QueryResult, AppError>)
        ensures
            r is Ok <==> self.offset <= result.data.rows@.len(),
            r matches Ok(q) ==> q.data.cols.same(&result.data.cols) && same_seq(
                q.data.rows@,
                result.data.rows@.skip(self.offset as int),
            ),
            r matches Err(e) ==> is_offset_error(
                e,
                self.offset as nat,
                result.data.rows@.len(),
            ),
    {
        let total_rows = result.data.rows.len();
        if self.offset > total_rows {
            return Err(Self::offset_error(self.offset, total_rows));
        }
        let mut rows: Vec<Vec<crate::models::JsonValue>> = Vec::new();
        let mut i = self.offset;
        while i < total_rows
            invariant
                self.offset <= i <= total_rows,
                total_rows == result.data.rows@.len(),
                rows@.len() == i - self.offset,
                forall|j: int|
                    0 <= j < rows@.len() ==> (#[trigger] rows@[j]).same(
                        &result.data.rows@[self.offset + j],
                    ),
            decreases total_rows - i,
        {
            rows.push(result.data.rows[i].duplicate());
            i = i + 1;
        }
        Ok(QueryResult { data: QueryData { cols: result.data.cols.duplicate(), rows } })
    }

    /// An error when the offset is beyond `total_records`.
    pub fn validate_offset(&self, total_records: usize) -> (r: Result<(), AppError>)
        ensures
            r is Ok <==> self.offset <= total_records,
            r matches Err(e) ==> is_offset_error(e, self.offset as nat, total_records as nat),
    {
        if self.offset > total_records {
            return Err(Self::offset_error(self.offset, total_records));
        }
        Ok(())
    }

    /// Whether no rows are skipped.
    pub fn is_no_offset(&self) -> (r: bool)
        ensures
            r == (self.offset == 0),
    {
        self.offset == 0
    }

    /// The number of records left after the offset (zero when the offset
    /// is past the end).
    pub fn remaining_records(&self, total_records: usize) -> (r: usize)
        ensures
            r == if self.offset <= total_records {
                total_records - self.offset
            } else {
                0
            },
    {
        total_records.saturating_sub(self.offset)
    }

    /// The error for an offset out of range.
    pub fn offset_error(offset: usize, max: usize) -> (e: AppError)
        ensures
            is_offset_error(e, offset as nat, max as nat),
    {
        let mut m = String::new();
        append_str(&mut m, "Offset ");
        push_decimal(&mut m, offset as u64);
        append_str(&mut m, " is out of range (max: ");
        push_decimal(&mut m, max as u64);
        append_str(&mut m, ")");
        AppError::Display(DisplayError::Pagination(m))
    }
}

} // verus!
