//! Mapping each item of a bulk to an array and flattening the result.
use vstd::prelude::*;

use crate::adapters::flatten::{flat, flatten_arrays, lemma_flat};
use crate::adapters::map::{map_items, mapped};
use crate::bulk::{accepts_each, Bulk};
use crate::util::reversed;

verus! {

/// A bulk that maps each item of `bulk` to an array with `f` and yields the items of those
/// arrays, one array after another.
pub struct FlatMap<B, F> {
    bulk: B,
    f: F,
}

impl<B, F> View for FlatMap<B, F> {
    type V = (B, F);

    closed spec fn view(&self) -> (B, F) {
        (self.bulk, self.f)
    }
}

impl<B: Bulk, U, const M: usize, F: FnMut(B::Item) -> [U; M]> FlatMap<B, F> {
    pub(crate) fn new(bulk: B, f: F) -> (r: Self)
        ensures
            r@ == (bulk, f),
    {
        FlatMap { bulk, f }
    }
}

impl<B: Bulk, U, const M: usize, F: FnMut(B::Item) -> [U; M]> Bulk for FlatMap<B, F> {
    type Item = U;

    open spec fn wf(&self) -> bool {
        &&& self@.0.wf()
        &&& forall|t: Seq<B::Item>| #[trigger] self@.0.yields(t) ==> accepts_each(self@.1, t)
        &&& self@.0.spec_len() * M <= usize::MAX
    }

    open spec fn spec_len(&self) -> nat {
        self@.0.spec_len() * (M as nat)
    }

    open spec fn yields(&self, s: Seq<U>) -> bool {
        exists|t: Seq<B::Item>, a: Seq<[U; M]>|
            #![trigger self@.0.yields(t), mapped(self@.1, t, a)]
            self@.0.yields(t) && mapped(self@.1, t, a) && s == flat(a)
    }

    proof fn lemma_yields_len(&self, s: Seq<U>) {
        let (t, a) = choose|t: Seq<B::Item>, a: Seq<[U; M]>|
            #![trigger self@.0.yields(t), mapped(self@.1, t, a)]
            self@.0.yields(t) && mapped(self@.1, t, a) && s == flat(a);
        self@.0.lemma_yields_len(t);
        lemma_flat(a);
    }

    fn len(&self) -> (n: usize) {
        assert(self@.0 == self.bulk);
        self.bulk.len() * M
    }

    fn collect_vec(self) -> (v: Vec<U>) {
        let ghost b = self;
        assert(b@.0 == self.bulk && b@.1 == self.f);
        let FlatMap { bulk, f } = self;
        let t = bulk.collect_vec();
        let ghost ts = t@;
        let a = map_items(t, f);
        let ghost az = a@;
        let v = flatten_arrays(a);
        assert(b@.0.yields(ts) && mapped(b@.1, ts, az));
        assert(b.yields(v@));
        v
    }

    /// Walks `bulk` backwards, calling `f` on its items in that order.
    fn collect_rev_vec(self) -> (v: Vec<U>) {
        let ghost b = self;
        assert(b@.0 == self.bulk && b@.1 == self.f);
        let FlatMap { bulk, f } = self;
        let tr = bulk.collect_rev_vec();
        let ghost ts = tr@.reverse();
        assert(accepts_each(f, tr@)) by {
            assert forall|i: int| 0 <= i < tr@.len() implies call_requires(f, (tr@[i],)) by {
                assert(tr@[i] == ts[ts.len() - 1 - i]);
            }
        }
        let ar = map_items(tr, f);
        let a = reversed(ar);
        let ghost az = a@;
        assert(mapped(b@.1, ts, az)) by {
            assert forall|i: int| 0 <= i < ts.len() implies call_ensures(b@.1, (ts[i],), #[trigger] az[i]) by {
                assert(ts[i] == tr@[tr@.len() - 1 - i]);
                assert(az[i] == ar@[ar@.len() - 1 - i]);
            }
        }
        let w = flatten_arrays(a);
        assert(b.yields(w@));
        let r = reversed(w);
        assert(r@.reverse() =~= w@);
        r
    }
}

} // verus!
