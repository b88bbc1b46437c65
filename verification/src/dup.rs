//! Copies that are provably equal (element by element) to their source.
use vstd::prelude::*;

verus! {

/// A copy operation whose result is the same value as the original.
pub trait Duplicate: Sized {
    /// The two values hold the same data (for vectors: the same elements).
    spec fn same(&self, other: &Self) -> bool;

    fn duplicate(&self) -> (r: Self)
        ensures
            r.same(self),
    ;
}

impl Duplicate for String {
    open spec fn same(&self, other: &Self) -> bool {
        *self == *other
    }

    fn duplicate(&self) -> (r: Self) {
        self.clone()
    }
}

impl Duplicate for u32 {
    open spec fn same(&self, other: &Self) -> bool {
        *self == *other
    }

    fn duplicate(&self) -> (r: Self) {
        *self
    }
}

impl Duplicate for usize {
    open spec fn same(&self, other: &Self) -> bool {
        *self == *other
    }

    fn duplicate(&self) -> (r: Self) {
        *self
    }
}

impl Duplicate for bool {
    open spec fn same(&self, other: &Self) -> bool {
        *self == *other
    }

    fn duplicate(&self) -> (r: Self) {
        *self
    }
}

impl<T: Duplicate> Duplicate for Option<T> {
    open spec fn same(&self, other: &Self) -> bool {
        match (self, other) {
            (Some(a), Some(b)) => a.same(b),
            (None, None) => true,
            _ => false,
        }
    }

    fn duplicate(&self) -> (r: Self) {
        match self {
            Some(x) => {
                let y = x.duplicate();
                let r = Some(y);
                assert(r.same(self));
                r
            },
            None => None,
        }
    }
}

/// Two sequences hold, position by position, the same data.
pub open spec fn same_seq<T: Duplicate>(a: Seq<T>, b: Seq<T>) -> bool {
    a.len() == b.len() && forall|i: int| 0 <= i < a.len() ==> (#[trigger] a[i]).same(&b[i])
}

impl<T: Duplicate> Duplicate for Vec<T> {
    open spec fn same(&self, other: &Self) -> bool {
        same_seq(self@, other@)
    }

    fn duplicate(&self) -> (r: Self) {
        let mut out: Vec<T> = Vec::new();
        let mut i: usize = 0;
        while i < self.len()
            invariant
                0 <= i <= self@.len(),
                out@.len() == i,
                forall|j: int| 0 <= j < i ==> (#[trigger] out@[j]).same(&self@[j]),
            decreases self@.len() - i,
        {
            out.push(self[i].duplicate());
            i = i + 1;
        }
        out
    }
}

} // verus!
