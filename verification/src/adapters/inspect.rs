//! Looking at the items of a bulk as they pass.
use vstd::prelude::*;

use crate::bulk::Bulk;

verus! {

/// A bulk that calls `f` on a reference to each item of `bulk`, passing the item on.
pub struct Inspect<B, F> {
    bulk: B,
    f: F,
}

impl<B, F> View for Inspect<B, F> {
    type V = (B, F);

    closed spec fn view(&self) -> (B, F) {
        (self.bulk, self.f)
    }
}

impl<B: Bulk, F: FnMut(&B::Item)> Inspect<B, F> {
    pub(crate) fn new(bulk: B, f: F) -> (r: Self)
        ensures
            r@ == (bulk, f),
    {
        Inspect { bulk, f }
    }
}

impl<B: Bulk, F: FnMut(&B::Item)> Bulk for Inspect<B, F> {
    type Item = B::Item;

    open spec fn wf(&self) -> bool {
        &&& self@.0.wf()
        &&& forall|t: Seq<B::Item>|
            #[trigger] self@.0.yields(t) ==> forall|i: int| 0 <= i < t.len() ==> call_requires(self@.1, (&t[i],))
    }

    open spec fn spec_len(&self) -> nat {
        self@.0.spec_len()
    }

    open spec fn yields(&self, s: Seq<B::Item>) -> bool {
        &&& self@.0.yields(s)
        &&& forall|i: int| 0 <= i < s.len() ==> call_ensures(self@.1, (&s[i],), ())
    }

    proof fn lemma_yields_len(&self, s: Seq<B::Item>) {
        self@.0.lemma_yields_len(s);
    }

    fn len(&self) -> (n: usize) {
        assert(self@.0 == self.bulk);
        self.bulk.len()
    }

    fn collect_vec(self) -> (v: Vec<B::Item>) {
        let ghost b = self;
        assert(b@.0 == self.bulk && b@.1 == self.f);
        let Inspect { bulk, f } = self;
        let t = bulk.collect_vec();
        inspect_items(&t, f);
        assert(b.yields(t@));
        t
    }

    /// Walks `bulk` backwards and calls `f` on its items in that order.
    fn collect_rev_vec(self) -> (v: Vec<B::Item>) {
        let ghost b = self;
        assert(b@.0 == self.bulk && b@.1 == self.f);
        let Inspect { bulk, f } = self;
        let t = bulk.collect_rev_vec();
        let ghost tr = t@.reverse();
        assert forall|k: int| 0 <= k < t@.len() implies call_requires(f, (&t@[k],)) by {
            assert(t@[k] == tr[tr.len() - 1 - k]);
        }
        inspect_items(&t, f);
        assert forall|i: int| 0 <= i < tr.len() implies call_ensures(b@.1, (&tr[i],), ()) by {
            assert(tr[i] == t@[t@.len() - 1 - i]);
        }
        assert(b.yields(t@.reverse()));
        t
    }
}

/// Calls `f` on a reference to each item of `t`, in order.
fn inspect_items<T, F: FnMut(&T)>(t: &Vec<T>, f: F)
    requires
        forall|k: int| 0 <= k < t@.len() ==> call_requires(f, (&t@[k],)),
    ensures
        forall|k: int| 0 <= k < t@.len() ==> call_ensures(f, (&t@[k],), ()),
{
    let mut g = f;
    let n = t.len();
    let mut i: usize = 0;
    while i < n
        invariant
            n == t@.len(),
            i <= n,
            g == f,
            forall|k: int| 0 <= k < n ==> call_requires(f, (&t@[k],)),
            forall|k: int| 0 <= k < i ==> call_ensures(f, (&t@[k],), ()),
        decreases n - i,
    {
        let u = g(&t[i]);
        assert(u == ());
        i = i + 1;
    }
}

} // verus!
