//! The bulk with exactly one item.
use vstd::prelude::*;

use crate::bulk::Bulk;

verus! {

/// A bulk that yields `value` once.
pub struct Once<T> {
    value: T,
}

impl<T> View for Once<T> {
    type V = T;

    closed spec fn view(&self) -> T {
        self.value
    }
}

/// Creates a bulk that yields `value` exactly once.
pub fn once<T>(value: T) -> (r: Once<T>)
    ensures
        r@ == value,
{
    Once { value }
}

impl<T> Once<T> {
    /// Returns the value the bulk yields.
    pub fn into_inner(self) -> (v: T)
        ensures
            v == self@,
    {
        self.value
    }
}

impl<T> Bulk for Once<T> {
    type Item = T;

    open spec fn wf(&self) -> bool {
        true
    }

    open spec fn spec_len(&self) -> nat {
        1
    }

    open spec fn yields(&self, s: Seq<T>) -> bool {
        s == seq![self@]
    }

    proof fn lemma_yields_len(&self, s: Seq<T>) {
    }

    fn len(&self) -> (n: usize) {
        1
    }

    fn collect_vec(self) -> (v: Vec<T>) {
        let ghost b = self;
        assert(b@ == self.value);
        let mut v: Vec<T> = Vec::new();
        v.push(self.value);
        assert(v@ =~= seq![b@]);
        assert(b.yields(v@));
        v
    }
}

} // verus!
