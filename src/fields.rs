//! A ready-made trackable value whose accessors read its fields.
use crate::tracker::Trackable;
use vstd::prelude::*;

verus! {

/// A value of `N` fields, where accessor `i` returns field `i`.
pub struct Fields<O, const N: usize> {
    values: [O; N],
}

impl<O: Copy, const N: usize> Fields<O, N> {
    /// The fields, in accessor order.
    pub closed spec fn fields(&self) -> Seq<O> {
        self.values@
    }

    /// A value with the given fields.
    pub fn new(values: [O; N]) -> (r: Self)
        ensures
            r.fields() == values@,
    {
        Fields { values }
    }
}

impl<O: Copy + PartialEq, const N: usize> Trackable for Fields<O, N> {
    type Output = O;

    open spec fn accessor_count() -> nat {
        N as nat
    }

    open spec fn accessor(&self, i: int) -> O {
        self.fields()[i]
    }

    fn count() -> (n: usize) {
        N
    }

    fn call(&self, i: usize) -> (r: O) {
        self.values[i]
    }
}

} // verus!
