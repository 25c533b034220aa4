//! Flattening a bulk of arrays.
use vstd::prelude::*;

use crate::bulk::Bulk;
use crate::util::{array_to_vec, reversed};

verus! {

/// The items of the arrays of `t`, one array after another.
pub open spec fn flat<T, const M: usize>(t: Seq<[T; M]>) -> Seq<T> {
    t.map_values(|a: [T; M]| a@).flatten()
}

/// A flattened sequence of arrays of `M` items has `M` items per array, and its item at
/// `k * M + j` is item `j` of array `k`.
pub proof fn lemma_flat<T, const M: usize>(t: Seq<[T; M]>)
    ensures
        flat(t).len() == t.len() * M,
        forall|k: int, j: int|
            0 <= k < t.len() && 0 <= j < M ==> #[trigger] flat(t)[k * M + j] == t[k]@[j],
    decreases t.len(),
{
    if t.len() > 0 {
        let init = t.drop_last();
        lemma_flat(init);
        assert(t.map_values(|a: [T; M]| a@) =~= init.map_values(|a: [T; M]| a@).push(t.last()@));
        init.map_values(|a: [T; M]| a@).lemma_flatten_push(t.last()@);
        assert(flat(t) =~= flat(init) + t.last()@);
        assert((t.len() - 1) * M + M == t.len() * M) by (nonlinear_arith);
        assert forall|k: int, j: int| 0 <= k < t.len() && 0 <= j < M implies #[trigger] flat(t)[k * M
            + j] == t[k]@[j] by {
            if k < t.len() - 1 {
                assert(k * M + j < (t.len() - 1) * M) by (nonlinear_arith)
                    requires
                        0 <= k < t.len() - 1,
                        0 <= j < M,
                ;
                assert(init[k] == t[k]);
            } else {
                assert(k * M == (t.len() - 1) * M);
            }
        }
    } else {
        assert(t.map_values(|a: [T; M]| a@) =~= Seq::<Seq<T>>::empty());
    }
}

/// Moves the items of the arrays of `v` into one vector, one array after another.
pub fn flatten_arrays<T, const M: usize>(v: Vec<[T; M]>) -> (r: Vec<T>)
    ensures
        r@ == flat(v@),
{
    let ghost s = v@;
    let n = v.len();
    let mut rest = reversed(v);
    let mut r: Vec<T> = Vec::new();
    let mut i: usize = 0;
    assert(s.take(0).map_values(|a: [T; M]| a@) =~= Seq::<Seq<T>>::empty());
    while rest.len() > 0
        invariant
            s.len() == n,
            i + rest@.len() == n,
            forall|j: int| 0 <= j < rest@.len() ==> rest@[j] == s[s.len() - 1 - j],
            r@ == flat(s.take(i as int)),
        decreases rest.len(),
    {
        let a = rest.pop().unwrap();
        assert(a == s[i as int]);
        let mut av = array_to_vec(a);
        proof {
            let pre = s.take(i as int);
            assert(s.take(i + 1) =~= pre.push(a));
            assert(pre.push(a).map_values(|a: [T; M]| a@) =~= pre.map_values(|a: [T; M]| a@).push(a@));
            pre.map_values(|a: [T; M]| a@).lemma_flatten_push(a@);
        }
        r.append(&mut av);
        i = i + 1;
    }
    assert(s.take(n as int) =~= s);
    r
}

/// A bulk that yields the items of the arrays that `bulk` yields, one array after another.
pub struct Flatten<B> {
    bulk: B,
}

impl<B> View for Flatten<B> {
    type V = B;

    closed spec fn view(&self) -> B {
        self.bulk
    }
}

impl<T, const M: usize, B: Bulk<Item = [T; M]>> Flatten<B> {
    pub(crate) fn new(bulk: B) -> (r: Self)
        ensures
            r@ == bulk,
    {
        Flatten { bulk }
    }
}

impl<T, const M: usize, B: Bulk<Item = [T; M]>> Bulk for Flatten<B> {
    type Item = T;

    open spec fn wf(&self) -> bool {
        &&& self@.wf()
        &&& self@.spec_len() * M <= usize::MAX
    }

    open spec fn spec_len(&self) -> nat {
        self@.spec_len() * (M as nat)
    }

    open spec fn yields(&self, s: Seq<T>) -> bool {
        exists|t: Seq<[T; M]>| #[trigger] self@.yields(t) && s == flat(t)
    }

    proof fn lemma_yields_len(&self, s: Seq<T>) {
        let t = choose|t: Seq<[T; M]>| #[trigger] self@.yields(t) && s == flat(t);
        self@.lemma_yields_len(t);
        lemma_flat(t);
    }

    fn len(&self) -> (n: usize) {
        assert(self@ == self.bulk);
        self.bulk.len() * M
    }

    fn collect_vec(self) -> (v: Vec<T>) {
        let ghost b = self;
        assert(b@ == self.bulk);
        let t = self.bulk.collect_vec();
        let ghost ts = t@;
        let v = flatten_arrays(t);
        assert(b@.yields(ts));
        assert(b.yields(v@));
        v
    }

    /// Walks `bulk` backwards; its closures run in that order.
    fn collect_rev_vec(self) -> (v: Vec<T>) {
        let ghost b = self;
        assert(b@ == self.bulk);
        let tr = self.bulk.collect_rev_vec();
        let t = reversed(tr);
        let ghost ts = t@;
        let w = flatten_arrays(t);
        assert(b@.yields(ts));
        assert(b.yields(w@));
        let r = reversed(w);
        assert(r@.reverse() =~= w@);
        r
    }
}

} // verus!
