//! The bulk with no items.
use vstd::prelude::*;

use core::marker::PhantomData;

use crate::bulk::Bulk;

verus! {

/// A bulk that yields nothing.
pub struct Empty<T> {
    marker: PhantomData<T>,
}

/// Creates a bulk that yields nothing.
pub fn empty<T>() -> (r: Empty<T>)
    ensures
        r.wf(),
        r.spec_len() == 0,
{
    Empty { marker: PhantomData }
}

impl<T> Bulk for Empty<T> {
    type Item = T;

    open spec fn wf(&self) -> bool {
        true
    }

    open spec fn spec_len(&self) -> nat {
        0
    }

    open spec fn yields(&self, s: Seq<T>) -> bool {
        s.len() == 0
    }

    proof fn lemma_yields_len(&self, s: Seq<T>) {
    }

    fn len(&self) -> (n: usize) {
        0
    }

    fn collect_vec(self) -> (v: Vec<T>) {
        let v: Vec<T> = Vec::new();
        assert(self.yields(v@));
        v
    }
}

} // verus!
