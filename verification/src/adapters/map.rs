//! Mapping the items of a bulk with a closure.
use vstd::prelude::*;

use crate::bulk::{accepts_each, Bulk};
use crate::util::reversed;

verus! {

/// `s` is a result of calling `f` on each item of `t`.
pub open spec fn mapped<T, U, F: FnMut(T) -> U>(f: F, t: Seq<T>, s: Seq<U>) -> bool {
    &&& s.len() == t.len()
    &&& forall|i: int| 0 <= i < t.len() ==> call_ensures(f, (t[i],), #[trigger] s[i])
}

/// Calls `f` on each item of `v`, in order, collecting the results.
pub fn map_items<T, U, F: FnMut(T) -> U>(v: Vec<T>, f: F) -> (r: Vec<U>)
    requires
        accepts_each(f, v@),
    ensures
        mapped(f, v@, r@),
{
    let mut g = f;
    let ghost f0 = f;
    let ghost s = v@;
    let n = v.len();
    let mut rest = reversed(v);
    let mut r: Vec<U> = Vec::new();
    while rest.len() > 0
        invariant
            g == f0,
            f0 == f,
            s == v@,
            s.len() == n,
            r@.len() + rest@.len() == n,
            accepts_each(f0, s),
            forall|j: int| 0 <= j < rest@.len() ==> rest@[j] == s[s.len() - 1 - j],
            forall|j: int| 0 <= j < r@.len() ==> call_ensures(f0, (s[j],), #[trigger] r@[j]),
        decreases rest.len(),
    {
        let x = rest.pop().unwrap();
        assert(x == s[r@.len() as int]);
        let y = g(x);
        r.push(y);
    }
    r
}

/// A bulk that maps the items of `bulk` with `f`.
///
/// The type is named `MapBulk` because `Map` is taken by the mathematical maps of the
/// specification language.
pub struct MapBulk<B, F> {
    bulk: B,
    f: F,
}

impl<B, F> View for MapBulk<B, F> {
    type V = (B, F);

    closed spec fn view(&self) -> (B, F) {
        (self.bulk, self.f)
    }
}

impl<B: Bulk, U, F: FnMut(B::Item) -> U> MapBulk<B, F> {
    pub(crate) fn new(bulk: B, f: F) -> (r: Self)
        ensures
            r@ == (bulk, f),
    {
        MapBulk { bulk, f }
    }
}

impl<B: Bulk, U, F: FnMut(B::Item) -> U> Bulk for MapBulk<B, F> {
    type Item = U;

    open spec fn wf(&self) -> bool {
        &&& self@.0.wf()
        &&& forall|t: Seq<B::Item>| #[trigger] self@.0.yields(t) ==> accepts_each(self@.1, t)
    }

    open spec fn spec_len(&self) -> nat {
        self@.0.spec_len()
    }

    open spec fn yields(&self, s: Seq<U>) -> bool {
        exists|t: Seq<B::Item>| #[trigger] self@.0.yields(t) && mapped(self@.1, t, s)
    }

    proof fn lemma_yields_len(&self, s: Seq<U>) {
        let t = choose|t: Seq<B::Item>| #[trigger] self@.0.yields(t) && mapped(self@.1, t, s);
        self@.0.lemma_yields_len(t);
    }

    fn len(&self) -> (n: usize) {
        assert(self@.0 == self.bulk);
        self.bulk.len()
    }

    fn collect_vec(self) -> (v: Vec<U>) {
        let ghost b = self;
        assert(b@.0 == self.bulk);
        assert(b@.1 == self.f);
        let MapBulk { bulk, f } = self;
        let t = bulk.collect_vec();
        let v = map_items(t, f);
        assert(b.yields(v@));
        v
    }

    /// Walks `bulk` backwards and calls `f` on its items in that order.
    fn collect_rev_vec(self) -> (v: Vec<U>) {
        let ghost b = self;
        assert(b@.0 == self.bulk);
        assert(b@.1 == self.f);
        let MapBulk { bulk, f } = self;
        let t = bulk.collect_rev_vec();
        let ghost tr = t@.reverse();
        assert(accepts_each(f, t@)) by {
            assert forall|i: int| 0 <= i < t@.len() implies call_requires(f, (t@[i],)) by {
                assert(t@[i] == tr[tr.len() - 1 - i]);
            }
        }
        let v = map_items(t, f);
        assert(mapped(b@.1, tr, v@.reverse())) by {
            assert forall|i: int| 0 <= i < tr.len() implies call_ensures(b@.1, (tr[i],), #[trigger] v@.reverse()[i]) by {
                assert(tr[i] == t@[t@.len() - 1 - i]);
                assert(v@.reverse()[i] == v@[v@.len() - 1 - i]);
            }
        }
        assert(b.yields(v@.reverse()));
        v
    }
}

} // verus!
