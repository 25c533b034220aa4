//! Cloning the items of a bulk of references.
use vstd::prelude::*;

use crate::bulk::Bulk;

verus! {

/// A reference whose target can be cloned out of it.
pub trait CloneRef {
    type Target: Clone;

    spec fn target(&self) -> Self::Target;

    /// Clones the target out of the reference.
    fn clone_target(&self) -> (t: Self::Target)
        ensures
            cloned(self.target(), t),
    ;
}

impl<'a, T: Clone> CloneRef for &'a T {
    type Target = T;

    open spec fn target(&self) -> T {
        **self
    }

    fn clone_target(&self) -> (t: T) {
        (**self).clone()
    }
}

/// Each item of `s` is a clone of the value that the matching reference of `t` points to.
pub open spec fn clones<R: CloneRef>(t: Seq<R>, s: Seq<R::Target>) -> bool {
    &&& s.len() == t.len()
    &&& forall|i: int| 0 <= i < t.len() ==> cloned(t[i].target(), #[trigger] s[i])
}

/// A bulk that clones the items that the references of `bulk` point to.
pub struct Cloned<B> {
    bulk: B,
}

impl<B> View for Cloned<B> {
    type V = B;

    closed spec fn view(&self) -> B {
        self.bulk
    }
}

impl<B: Bulk> Cloned<B> where B::Item: CloneRef {
    pub(crate) fn new(bulk: B) -> (r: Self)
        ensures
            r@ == bulk,
    {
        Cloned { bulk }
    }

    /// Returns the bulk whose items this one clones.
    pub fn into_inner(self) -> (b: B)
        ensures
            b == self@,
    {
        self.bulk
    }
}

impl<B: Bulk> Bulk for Cloned<B> where B::Item: CloneRef {
    type Item = <B::Item as CloneRef>::Target;

    open spec fn wf(&self) -> bool {
        self@.wf()
    }

    open spec fn spec_len(&self) -> nat {
        self@.spec_len()
    }

    open spec fn yields(&self, s: Seq<Self::Item>) -> bool {
        exists|t: Seq<B::Item>| #[trigger] self@.yields(t) && clones(t, s)
    }

    proof fn lemma_yields_len(&self, s: Seq<Self::Item>) {
        let t = choose|t: Seq<B::Item>| #[trigger] self@.yields(t) && clones(t, s);
        self@.lemma_yields_len(t);
    }

    fn len(&self) -> (n: usize) {
        assert(self@ == self.bulk);
        self.bulk.len()
    }

    fn collect_vec(self) -> (v: Vec<Self::Item>) {
        let ghost b = self;
        assert(b@ == self.bulk);
        let t = self.bulk.collect_vec();
        let v = clone_items(&t);
        assert(b.yields(v@));
        v
    }

    fn collect_rev_vec(self) -> (v: Vec<Self::Item>) {
        let ghost b = self;
        assert(b@ == self.bulk);
        let t = self.bulk.collect_rev_vec();
        let v = clone_items(&t);
        assert(clones(t@.reverse(), v@.reverse())) by {
            assert forall|i: int| 0 <= i < t@.len() implies #[trigger] v@.reverse()[i] == v@[v@.len() - 1 - i]
                && t@.reverse()[i] == t@[t@.len() - 1 - i] by {}
        }
        assert(b.yields(v@.reverse()));
        v
    }
}

/// Clones the targets of the references of `t`, in order.
fn clone_items<R: CloneRef>(t: &Vec<R>) -> (v: Vec<R::Target>)
    ensures
        clones(t@, v@),
{
    let ghost ts = t@;
    let n = t.len();
    let mut v: Vec<R::Target> = Vec::new();
    let mut i: usize = 0;
    while i < n
        invariant
            ts == t@,
            n == ts.len(),
            i <= n,
            v@.len() == i,
            forall|j: int| 0 <= j < i ==> cloned(ts[j].target(), #[trigger] v@[j]),
        decreases n - i,
    {
        let x = t[i].clone_target();
        v.push(x);
        i = i + 1;
    }
    v
}

} // verus!
