//! Splitting a slice into consecutive parts whose estimated size stays
//! within a memory limit.
use vstd::prelude::*;
use crate::memory::MemoryEstimator;

verus! {

/// The parts, one after another.
pub open spec fn joined<T>(parts: Seq<&[T]>) -> Seq<T>
    decreases parts.len(),
{
    if parts.len() == 0 {
        Seq::empty()
    } else {
        joined(parts.drop_last()) + parts.last()@
    }
}

/// `p` is a non-empty run of consecutive elements of `data`.
pub open spec fn part_of<T>(data: Seq<T>, p: Seq<T>) -> bool {
    exists|s: int, e: int| 0 <= s < e <= data.len() && p == #[trigger] data.subrange(s, e)
}

/// An estimate of `data[s..e]` came back within `target` bytes.
pub open spec fn estimated_within<T, F: Fn(&[T]) -> usize>(
    f: F,
    data: Seq<T>,
    s: int,
    e: int,
    target: usize,
) -> bool {
    exists|p: &[T], v: usize|
        #![trigger call_ensures(f, (p,), v)]
        p@ == data.subrange(s, e) && call_ensures(f, (p,), v) && v <= target
}

/// An estimate of `data[s..e]` came back above `target` bytes.
pub open spec fn estimated_over<T, F: Fn(&[T]) -> usize>(
    f: F,
    data: Seq<T>,
    s: int,
    e: int,
    target: usize,
) -> bool {
    exists|p: &[T], v: usize|
        #![trigger call_ensures(f, (p,), v)]
        p@ == data.subrange(s, e) && call_ensures(f, (p,), v) && v > target
}

/// Part `k` is not empty; each of its prefixes of two or more elements was
/// estimated within `target`; and, unless it reaches the end of `data`,
/// the part one element longer was estimated above `target`.
pub open spec fn part_fits<T, F: Fn(&[T]) -> usize>(
    f: F,
    data: Seq<T>,
    parts: Seq<&[T]>,
    k: int,
    target: usize,
) -> bool {
    let s = joined(parts.take(k)).len() as int;
    let e = s + parts[k]@.len();
    &&& parts[k]@.len() > 0
    &&& forall|x: int| s + 2 <= x <= e ==> #[trigger] estimated_within(f, data, s, x, target)
    &&& e < data.len() ==> estimated_over(f, data, s, e + 1, target)
}

impl MemoryEstimator {
    /// Splits `data` into consecutive non-empty parts. Each part grows one
    /// element at a time while the estimate of the longer part stays within
    /// `memory_limit_mb` megabytes; a single element always forms a part.
    /// The estimate is asked only about non-empty runs of consecutive
    /// elements of `data` (it need accept nothing else).
    pub fn create_memory_efficient_chunks<'a, T, F: Fn(&[T]) -> usize>(
        data: &'a [T],
        memory_limit_mb: usize,
        estimate_fn: F,
    ) -> (r: Vec<&'a [T]>)
        requires
            memory_limit_mb * 1048576 <= usize::MAX,
            forall|p: &[T]| part_of(data@, p@) ==> #[trigger] call_requires(estimate_fn, (p,)),
        ensures
            joined(r@) == data@,
            forall|k: int|
                0 <= k < r@.len() ==> #[trigger] part_fits(
                    estimate_fn,
                    data@,
                    r@,
                    k,
                    (memory_limit_mb * 1048576) as usize,
                ),
    {
        let mut chunks: Vec<&'a [T]> = Vec::new();
        if data.len() == 0 {
            assert(joined(chunks@) =~= data@);
            return chunks;
        }
        let n = data.len();
        let target_size_bytes = memory_limit_mb * 1048576;
        let mut start: usize = 0;
        assert(joined(chunks@) =~= data@.subrange(0, 0));
        while start < n
            invariant
                n == data@.len(),
                start <= n,
                target_size_bytes == memory_limit_mb * 1048576,
                forall|p: &[T]| part_of(data@, p@) ==> #[trigger] call_requires(estimate_fn, (p,)),
                joined(chunks@) == data@.subrange(0, start as int),
                forall|k: int|
                    0 <= k < chunks@.len() ==> #[trigger] part_fits(
                        estimate_fn,
                        data@,
                        chunks@,
                        k,
                        target_size_bytes,
                    ),
            decreases n - start,
        {
            let mut end: usize = start + 1;
            loop
                invariant_except_break
                    start + 1 <= end <= n,
                    forall|x: int|
                        start + 2 <= x < end ==> #[trigger] estimated_within(
                            estimate_fn,
                            data@,
                            start as int,
                            x,
                            target_size_bytes,
                        ),
                invariant
                    n == data@.len(),
                    start < n,
                    forall|p: &[T]| part_of(data@, p@) ==> #[trigger] call_requires(estimate_fn, (p,)),
                ensures
                    start + 1 <= end <= n,
                    forall|x: int|
                        start + 2 <= x <= end ==> #[trigger] estimated_within(
                            estimate_fn,
                            data@,
                            start as int,
                            x,
                            target_size_bytes,
                        ),
                    end < n ==> estimated_over(
                        estimate_fn,
                        data@,
                        start as int,
                        end + 1,
                        target_size_bytes,
                    ),
                decreases n - end,
            {
                let chunk = vstd::slice::slice_subrange(data, start, end);
                assert(part_of(data@, chunk@)) by {
                    assert(0 <= start < end <= data@.len() && chunk@ == data@.subrange(
                        start as int,
                        end as int,
                    ));
                }
                let estimated_bytes = estimate_fn(chunk);
                if estimated_bytes > target_size_bytes && end > start + 1 {
                    assert(estimated_over(
                        estimate_fn,
                        data@,
                        start as int,
                        end as int,
                        target_size_bytes,
                    ));
                    end = end - 1;
                    break ;
                }
                if estimated_bytes <= target_size_bytes {
                    assert(estimated_within(
                        estimate_fn,
                        data@,
                        start as int,
                        end as int,
                        target_size_bytes,
                    ));
                }
                if end == n {
                    break ;
                }
                end = end + 1;
            }
            let part = vstd::slice::slice_subrange(data, start, end);
            let ghost before = chunks@;
            chunks.push(part);
            proof {
                assert(chunks@.drop_last() == before);
                assert(data@.subrange(0, end as int) =~= data@.subrange(0, start as int)
                    + part@);
                assert(chunks@.take(before.len() as int) =~= before);
                assert forall|k: int| 0 <= k < chunks@.len() implies #[trigger] part_fits(
                    estimate_fn,
                    data@,
                    chunks@,
                    k,
                    target_size_bytes,
                ) by {
                    if k < before.len() {
                        assert(chunks@.take(k) =~= before.take(k));
                        assert(part_fits(estimate_fn, data@, before, k, target_size_bytes));
                    }
                }
            }
            start = end;
        }
        assert(data@.subrange(0, n as int) =~= data@);
        chunks
    }
}

} // verus!
