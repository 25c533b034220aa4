//! Pairing the items of a bulk with their index.
use vstd::prelude::*;

use crate::bulk::Bulk;
use crate::util::reversed;

verus! {

/// `s` pairs each item of `t` with its index counted from `start`.
pub open spec fn enumerated<T>(start: int, t: Seq<T>, s: Seq<(usize, T)>) -> bool {
    &&& s.len() == t.len()
    &&& forall|i: int| 0 <= i < t.len() ==> #[trigger] s[i] == ((start + i) as usize, t[i])
}

/// Pairs each item of `v` with its index counted from `start`.
pub fn enumerate_items<T>(v: Vec<T>, start: usize) -> (r: Vec<(usize, T)>)
    requires
        start + v@.len() <= usize::MAX + 1,
    ensures
        enumerated(start as int, v@, r@),
{
    let ghost s = v@;
    let n = v.len();
    let mut rest = reversed(v);
    let mut r: Vec<(usize, T)> = Vec::new();
    while rest.len() > 0
        invariant
            s == v@,
            s.len() == n,
            start + n <= usize::MAX + 1,
            r@.len() + rest@.len() == n,
            forall|j: int| 0 <= j < rest@.len() ==> rest@[j] == s[s.len() - 1 - j],
            forall|j: int| 0 <= j < r@.len() ==> #[trigger] r@[j] == ((start + j) as usize, s[j]),
        decreases rest.len(),
    {
        let x = rest.pop().unwrap();
        assert(x == s[r@.len() as int]);
        let i = start + r.len();
        r.push((i, x));
    }
    r
}

/// A bulk that yields the items of `bulk` paired with their index.
pub struct Enumerate<B> {
    bulk: B,
}

impl<B> View for Enumerate<B> {
    type V = B;

    closed spec fn view(&self) -> B {
        self.bulk
    }
}

impl<B: Bulk> Enumerate<B> {
    pub(crate) fn new(bulk: B) -> (r: Self)
        ensures
            r@ == bulk,
    {
        Enumerate { bulk }
    }
}

impl<B: Bulk> Bulk for Enumerate<B> {
    type Item = (usize, B::Item);

    open spec fn wf(&self) -> bool {
        &&& self@.wf()
        &&& self@.spec_len() <= usize::MAX
    }

    open spec fn spec_len(&self) -> nat {
        self@.spec_len()
    }

    open spec fn yields(&self, s: Seq<(usize, B::Item)>) -> bool {
        exists|t: Seq<B::Item>| #[trigger] self@.yields(t) && enumerated(0, t, s)
    }

    proof fn lemma_yields_len(&self, s: Seq<(usize, B::Item)>) {
        let t = choose|t: Seq<B::Item>| #[trigger] self@.yields(t) && enumerated(0, t, s);
        self@.lemma_yields_len(t);
    }

    fn len(&self) -> (n: usize) {
        assert(self@ == self.bulk);
        self.bulk.len()
    }

    fn collect_vec(self) -> (v: Vec<(usize, B::Item)>) {
        let ghost b = self;
        assert(b@ == self.bulk);
        let t = self.bulk.collect_vec();
        let ghost ts = t@;
        proof {
            b@.lemma_yields_len(ts);
        }
        let v = enumerate_items(t, 0);
        assert(b@.yields(ts));
        assert(b.yields(v@));
        v
    }

    /// Walks the inner bulk backwards; the indices are those of the items' places.
    fn collect_rev_vec(self) -> (v: Vec<(usize, B::Item)>) {
        let ghost b = self;
        assert(b@ == self.bulk);
        let tr = self.bulk.collect_rev_vec();
        let t = reversed(tr);
        let ghost ts = t@;
        proof {
            b@.lemma_yields_len(ts);
        }
        let v = enumerate_items(t, 0);
        assert(b@.yields(ts));
        assert(b.yields(v@));
        let r = reversed(v);
        assert(r@.reverse() =~= v@);
        r
    }
}

} // verus!
