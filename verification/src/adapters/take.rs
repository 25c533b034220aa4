//! Keeping only the first items of a bulk.
use vstd::prelude::*;

use crate::bulk::{min_len, Bulk};
use crate::into_bulk::IntoBulk;
use crate::util::reversed;

verus! {

/// A bulk that yields the first `n` items of `bulk`, or all of them if it has fewer.
pub struct Take<B> {
    bulk: B,
    n: usize,
}

impl<B> View for Take<B> {
    type V = (B, usize);

    closed spec fn view(&self) -> (B, usize) {
        (self.bulk, self.n)
    }
}

impl<B: Bulk> Take<B> {
    pub(crate) fn new(bulk: B, n: usize) -> (r: Self)
        ensures
            r@ == (bulk, n),
    {
        Take { bulk, n }
    }
}

/// Converts `bulk` to a bulk and keeps its first `n` items.
pub fn take<I: IntoBulk>(bulk: I, n: usize) -> (r: Take<I::IntoBulk>)
    ensures
        bulk.converts(r@.0),
        r@.1 == n,
        bulk.bulkable() ==> r@.0.wf(),
{
    Take::new(bulk.into_bulk(), n)
}

impl<B: Bulk> Bulk for Take<B> {
    type Item = B::Item;

    open spec fn wf(&self) -> bool {
        self@.0.wf()
    }

    open spec fn spec_len(&self) -> nat {
        min_len(self@.1 as int, self@.0.spec_len() as int) as nat
    }

    open spec fn yields(&self, s: Seq<B::Item>) -> bool {
        exists|t: Seq<B::Item>|
            #[trigger] self@.0.yields(t) && s == t.take(min_len(self@.1 as int, t.len() as int))
    }

    proof fn lemma_yields_len(&self, s: Seq<B::Item>) {
        let t = choose|t: Seq<B::Item>|
            #[trigger] self@.0.yields(t) && s == t.take(min_len(self@.1 as int, t.len() as int));
        self@.0.lemma_yields_len(t);
    }

    fn len(&self) -> (n: usize) {
        assert(self@.0 == self.bulk && self@.1 == self.n);
        let len = self.bulk.len();
        if self.n < len {
            self.n
        } else {
            len
        }
    }

    fn collect_vec(self) -> (v: Vec<B::Item>) {
        let ghost b = self;
        assert(b@.0 == self.bulk && b@.1 == self.n);
        let Take { bulk, n } = self;
        let mut t = bulk.collect_vec();
        let ghost ts = t@;
        assert(b@.0.yields(ts));
        if n < t.len() {
            let _rest = t.split_off(n);
            assert(t@ =~= ts.take(n as int));
        } else {
            assert(t@ =~= ts.take(ts.len() as int));
        }
        assert(b.yields(t@));
        t
    }

    /// Walks `bulk` backwards; its closures run in that order.
    fn collect_rev_vec(self) -> (v: Vec<B::Item>) {
        let ghost b = self;
        assert(b@.0 == self.bulk && b@.1 == self.n);
        let Take { bulk, n } = self;
        let tr = bulk.collect_rev_vec();
        let mut t = reversed(tr);
        let ghost ts = t@;
        assert(b@.0.yields(ts));
        if n < t.len() {
            let _rest = t.split_off(n);
            assert(t@ =~= ts.take(n as int));
        } else {
            assert(t@ =~= ts.take(ts.len() as int));
        }
        assert(b.yields(t@));
        let r = reversed(t);
        assert(r@.reverse() =~= t@);
        r
    }
}

} // verus!
