//! Reversing a bulk.
use vstd::prelude::*;

use crate::bulk::Bulk;

verus! {

/// A bulk that yields the items of `bulk` in reverse order.
pub struct Rev<B> {
    bulk: B,
}

impl<B> View for Rev<B> {
    type V = B;

    closed spec fn view(&self) -> B {
        self.bulk
    }
}

impl<B: Bulk> Rev<B> {
    pub(crate) fn new(bulk: B) -> (r: Self)
        ensures
            r@ == bulk,
    {
        Rev { bulk }
    }

    /// Returns the bulk that this one reverses.
    pub fn into_inner(self) -> (b: B)
        ensures
            b == self@,
    {
        self.bulk
    }
}

impl<B: Bulk> Bulk for Rev<B> {
    type Item = B::Item;

    open spec fn wf(&self) -> bool {
        self@.wf()
    }

    open spec fn spec_len(&self) -> nat {
        self@.spec_len()
    }

    open spec fn yields(&self, s: Seq<B::Item>) -> bool {
        exists|t: Seq<B::Item>| #[trigger] self@.yields(t) && s == t.reverse()
    }

    proof fn lemma_yields_len(&self, s: Seq<B::Item>) {
        let t = choose|t: Seq<B::Item>| #[trigger] self@.yields(t) && s == t.reverse();
        self@.lemma_yields_len(t);
    }

    fn len(&self) -> (n: usize) {
        assert(self@ == self.bulk);
        self.bulk.len()
    }

    fn collect_vec(self) -> (v: Vec<B::Item>) {
        let ghost b = self;
        assert(b@ == self.bulk);
        let v = self.bulk.collect_rev_vec();
        assert(v@.reverse().reverse() =~= v@);
        assert(b.yields(v@));
        v
    }

    fn collect_rev_vec(self) -> (v: Vec<B::Item>) {
        let ghost b = self;
        assert(b@ == self.bulk);
        let v = self.bulk.collect_vec();
        assert(v@.reverse().reverse() =~= v@);
        assert(b.yields(v@.reverse()));
        v
    }
}

} // verus!
