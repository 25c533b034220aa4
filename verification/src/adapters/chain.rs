//! Linking two bulks together.
use vstd::prelude::*;

use crate::bulk::Bulk;
use crate::into_bulk::IntoBulk;

verus! {

/// A bulk that yields the items of `a` followed by the items of `b`.
pub struct Chain<A, B> {
    a: A,
    b: B,
}

impl<A, B> View for Chain<A, B> {
    type V = (A, B);

    closed spec fn view(&self) -> (A, B) {
        (self.a, self.b)
    }
}

impl<A: Bulk, B: Bulk<Item = A::Item>> Chain<A, B> {
    pub(crate) fn new(a: A, b: B) -> (r: Self)
        ensures
            r@ == (a, b),
    {
        Chain { a, b }
    }
}

/// Converts the arguments to bulks and links them together, in a chain.
pub fn chain<A: IntoBulk, B: IntoBulk>(a: A, b: B) -> (r: Chain<A::IntoBulk, B::IntoBulk>)
    where
        B::IntoBulk: Bulk<Item = <A::IntoBulk as Bulk>::Item>,
    ensures
        a.converts(r@.0),
        b.converts(r@.1),
        a.bulkable() ==> r@.0.wf(),
        b.bulkable() ==> r@.1.wf(),
{
    Chain::new(a.into_bulk(), b.into_bulk())
}

impl<A: Bulk, B: Bulk<Item = A::Item>> Bulk for Chain<A, B> {
    type Item = A::Item;

    open spec fn wf(&self) -> bool {
        &&& self@.0.wf()
        &&& self@.1.wf()
        &&& self@.0.spec_len() + self@.1.spec_len() <= usize::MAX
    }

    open spec fn spec_len(&self) -> nat {
        self@.0.spec_len() + self@.1.spec_len()
    }

    open spec fn yields(&self, s: Seq<A::Item>) -> bool {
        exists|x: Seq<A::Item>, y: Seq<A::Item>|
            #![trigger self@.0.yields(x), self@.1.yields(y)]
            self@.0.yields(x) && self@.1.yields(y) && s == x + y
    }

    proof fn lemma_yields_len(&self, s: Seq<A::Item>) {
        let (x, y) = choose|x: Seq<A::Item>, y: Seq<A::Item>|
            #![trigger self@.0.yields(x), self@.1.yields(y)]
            self@.0.yields(x) && self@.1.yields(y) && s == x + y;
        self@.0.lemma_yields_len(x);
        self@.1.lemma_yields_len(y);
    }

    fn len(&self) -> (n: usize) {
        assert(self@.0 == self.a && self@.1 == self.b);
        self.a.len() + self.b.len()
    }

    fn collect_vec(self) -> (v: Vec<A::Item>) {
        let ghost c = self;
        assert(c@.0 == self.a && c@.1 == self.b);
        let Chain { a, b } = self;
        let mut x = a.collect_vec();
        let mut y = b.collect_vec();
        let ghost xs = x@;
        let ghost ys = y@;
        x.append(&mut y);
        assert(c@.0.yields(xs) && c@.1.yields(ys));
        assert(c.yields(x@));
        x
    }

    /// Walks `b` backwards, then `a`.
    fn collect_rev_vec(self) -> (v: Vec<A::Item>) {
        let ghost c = self;
        assert(c@.0 == self.a && c@.1 == self.b);
        let Chain { a, b } = self;
        let mut y = b.collect_rev_vec();
        let mut x = a.collect_rev_vec();
        let ghost xs = x@.reverse();
        let ghost ys = y@.reverse();
        let ghost yr = y@;
        let ghost xr = x@;
        y.append(&mut x);
        assert(y@.reverse() =~= xs + ys) by {
            assert(y@ == yr + xr);
            assert forall|i: int| 0 <= i < y@.len() implies #[trigger] y@.reverse()[i] == (xs + ys)[i] by {
                if i < xs.len() {
                    assert(y@.reverse()[i] == y@[y@.len() - 1 - i]);
                } else {
                    assert(y@.reverse()[i] == y@[y@.len() - 1 - i]);
                }
            }
        }
        assert(c@.0.yields(xs) && c@.1.yields(ys));
        assert(c.yields(y@.reverse()));
        y
    }
}

} // verus!
