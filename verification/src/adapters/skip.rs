//! Skipping the first items of a bulk.
use vstd::prelude::*;

use crate::bulk::{min_len, Bulk};
use crate::util::reversed;

verus! {

/// A bulk that yields the items of `bulk` after the first `n`; it is empty when `bulk`
/// has no more than `n` items.
pub struct Skip<B> {
    bulk: B,
    n: usize,
}

impl<B> View for Skip<B> {
    type V = (B, usize);

    closed spec fn view(&self) -> (B, usize) {
        (self.bulk, self.n)
    }
}

impl<B: Bulk> Skip<B> {
    pub(crate) fn new(bulk: B, n: usize) -> (r: Self)
        ensures
            r@ == (bulk, n),
    {
        Skip { bulk, n }
    }
}

impl<B: Bulk> Bulk for Skip<B> {
    type Item = B::Item;

    open spec fn wf(&self) -> bool {
        self@.0.wf()
    }

    open spec fn spec_len(&self) -> nat {
        (self@.0.spec_len() - min_len(self@.1 as int, self@.0.spec_len() as int)) as nat
    }

    open spec fn yields(&self, s: Seq<B::Item>) -> bool {
        exists|t: Seq<B::Item>|
            #[trigger] self@.0.yields(t) && s == t.skip(min_len(self@.1 as int, t.len() as int))
    }

    proof fn lemma_yields_len(&self, s: Seq<B::Item>) {
        let t = choose|t: Seq<B::Item>|
            #[trigger] self@.0.yields(t) && s == t.skip(min_len(self@.1 as int, t.len() as int));
        self@.0.lemma_yields_len(t);
    }

    fn len(&self) -> (n: usize) {
        assert(self@.0 == self.bulk && self@.1 == self.n);
        let len = self.bulk.len();
        if self.n < len {
            len - self.n
        } else {
            0
        }
    }

    fn collect_vec(self) -> (v: Vec<B::Item>) {
        let ghost b = self;
        assert(b@.0 == self.bulk && b@.1 == self.n);
        let Skip { bulk, n } = self;
        let mut t = bulk.collect_vec();
        let ghost ts = t@;
        assert(b@.0.yields(ts));
        if n < t.len() {
            let v = t.split_off(n);
            assert(v@ =~= ts.skip(n as int));
            assert(b.yields(v@));
            v
        } else {
            let v: Vec<B::Item> = Vec::new();
            assert(v@ =~= ts.skip(ts.len() as int));
            assert(b.yields(v@));
            v
        }
    }

    /// Walks `bulk` backwards; its closures run in that order.
    fn collect_rev_vec(self) -> (v: Vec<B::Item>) {
        let ghost b = self;
        assert(b@.0 == self.bulk && b@.1 == self.n);
        let Skip { bulk, n } = self;
        let tr = bulk.collect_rev_vec();
        let mut t = reversed(tr);
        let ghost ts = t@;
        assert(b@.0.yields(ts));
        let w = if n < t.len() {
            let w = t.split_off(n);
            assert(w@ =~= ts.skip(n as int));
            w
        } else {
            let w: Vec<B::Item> = Vec::new();
            assert(w@ =~= ts.skip(ts.len() as int));
            w
        };
        assert(b.yields(w@));
        let r = reversed(w);
        assert(r@.reverse() =~= w@);
        r
    }
}

} // verus!
