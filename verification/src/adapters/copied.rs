//! Copying the items of a bulk of references.
use vstd::prelude::*;

use crate::bulk::Bulk;

verus! {

/// A reference whose target can be copied out of it.
pub trait CopyRef {
    type Target: Copy;

    spec fn target(&self) -> Self::Target;

    /// Copies the target out of the reference.
    fn copy_target(&self) -> (t: Self::Target)
        ensures
            t == self.target(),
    ;
}

impl<'a, T: Copy> CopyRef for &'a T {
    type Target = T;

    open spec fn target(&self) -> T {
        **self
    }

    fn copy_target(&self) -> (t: T) {
        **self
    }
}

/// `s` holds the values that the references of `t` point to.
pub open spec fn derefs<R: CopyRef>(t: Seq<R>, s: Seq<R::Target>) -> bool {
    &&& s.len() == t.len()
    &&& forall|i: int| 0 <= i < t.len() ==> #[trigger] s[i] == t[i].target()
}

/// A bulk that copies the items that the references of `bulk` point to.
pub struct Copied<B> {
    bulk: B,
}

impl<B> View for Copied<B> {
    type V = B;

    closed spec fn view(&self) -> B {
        self.bulk
    }
}

impl<B: Bulk> Copied<B> where B::Item: CopyRef {
    pub(crate) fn new(bulk: B) -> (r: Self)
        ensures
            r@ == bulk,
    {
        Copied { bulk }
    }

    /// Returns the bulk whose items this one copies.
    pub fn into_inner(self) -> (b: B)
        ensures
            b == self@,
    {
        self.bulk
    }
}

impl<B: Bulk> Bulk for Copied<B> where B::Item: CopyRef {
    type Item = <B::Item as CopyRef>::Target;

    open spec fn wf(&self) -> bool {
        self@.wf()
    }

    open spec fn spec_len(&self) -> nat {
        self@.spec_len()
    }

    open spec fn yields(&self, s: Seq<Self::Item>) -> bool {
        exists|t: Seq<B::Item>| #[trigger] self@.yields(t) && derefs(t, s)
    }

    proof fn lemma_yields_len(&self, s: Seq<Self::Item>) {
        let t = choose|t: Seq<B::Item>| #[trigger] self@.yields(t) && derefs(t, s);
        self@.lemma_yields_len(t);
    }

    fn len(&self) -> (n: usize) {
        assert(self@ == self.bulk);
        self.bulk.len()
    }

    fn collect_vec(self) -> (v: Vec<Self::Item>) {
        let ghost b = self;
        assert(b@ == self.bulk);
        let t = self.bulk.collect_vec();
        let v = copy_items(&t);
        assert(b.yields(v@));
        v
    }

    fn collect_rev_vec(self) -> (v: Vec<Self::Item>) {
        let ghost b = self;
        assert(b@ == self.bulk);
        let t = self.bulk.collect_rev_vec();
        let v = copy_items(&t);
        assert(derefs(t@.reverse(), v@.reverse())) by {
            assert forall|i: int| 0 <= i < t@.len() implies #[trigger] v@.reverse()[i] == v@[v@.len() - 1 - i]
                && t@.reverse()[i] == t@[t@.len() - 1 - i] by {}
        }
        assert(b.yields(v@.reverse()));
        v
    }
}

/// Copies the targets of the references of `t`, in order.
fn copy_items<R: CopyRef>(t: &Vec<R>) -> (v: Vec<R::Target>)
    ensures
        derefs(t@, v@),
{
    let ghost ts = t@;
    let n = t.len();
    let mut v: Vec<R::Target> = Vec::new();
    let mut i: usize = 0;
    while i < n
        invariant
            ts == t@,
            n == ts.len(),
            i <= n,
            v@.len() == i,
            forall|j: int| 0 <= j < i ==> #[trigger] v@[j] == ts[j].target(),
        decreases n - i,
    {
        let x = t[i].copy_target();
        v.push(x);
        i = i + 1;
    }
    v
}

} // verus!
