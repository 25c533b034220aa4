//! Pairing the items of a bulk with their index, counted from a given start.
use vstd::prelude::*;

use crate::adapters::enumerate::{enumerate_items, enumerated};
use crate::bulk::Bulk;
use crate::util::reversed;

verus! {

/// A bulk that yields the items of `bulk` paired with their index counted from `start`.
pub struct EnumerateFrom<B> {
    bulk: B,
    start: usize,
}

impl<B> View for EnumerateFrom<B> {
    type V = (B, usize);

    closed spec fn view(&self) -> (B, usize) {
        (self.bulk, self.start)
    }
}

impl<B: Bulk> EnumerateFrom<B> {
    pub(crate) fn new(bulk: B, start: usize) -> (r: Self)
        ensures
            r@ == (bulk, start),
    {
        EnumerateFrom { bulk, start }
    }
}

impl<B: Bulk> Bulk for EnumerateFrom<B> {
    type Item = (usize, B::Item);

    open spec fn wf(&self) -> bool {
        &&& self@.0.wf()
        &&& self@.1 + self@.0.spec_len() <= usize::MAX + 1
    }

    open spec fn spec_len(&self) -> nat {
        self@.0.spec_len()
    }

    open spec fn yields(&self, s: Seq<(usize, B::Item)>) -> bool {
        exists|t: Seq<B::Item>| #[trigger] self@.0.yields(t) && enumerated(self@.1 as int, t, s)
    }

    proof fn lemma_yields_len(&self, s: Seq<(usize, B::Item)>) {
        let t = choose|t: Seq<B::Item>| #[trigger] self@.0.yields(t) && enumerated(self@.1 as int, t, s);
        self@.0.lemma_yields_len(t);
    }

    fn len(&self) -> (n: usize) {
        assert(self@.0 == self.bulk);
        self.bulk.len()
    }

    fn collect_vec(self) -> (v: Vec<(usize, B::Item)>) {
        let ghost b = self;
        assert(b@.0 == self.bulk && b@.1 == self.start);
        let EnumerateFrom { bulk, start } = self;
        let t = bulk.collect_vec();
        let ghost ts = t@;
        proof {
            b@.0.lemma_yields_len(ts);
        }
        let v = enumerate_items(t, start);
        assert(b@.0.yields(ts));
        assert(b.yields(v@));
        v
    }

    /// Walks the inner bulk backwards; the indices are those of the items' places.
    fn collect_rev_vec(self) -> (v: Vec<(usize, B::Item)>) {
        let ghost b = self;
        assert(b@.0 == self.bulk && b@.1 == self.start);
        let EnumerateFrom { bulk, start } = self;
        let tr = bulk.collect_rev_vec();
        let t = reversed(tr);
        let ghost ts = t@;
        proof {
            b@.0.lemma_yields_len(ts);
        }
        let v = enumerate_items(t, start);
        assert(b@.0.yields(ts));
        assert(b.yields(v@));
        let r = reversed(v);
        assert(r@.reverse() =~= v@);
        r
    }
}

} // verus!
