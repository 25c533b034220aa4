//! Pairing up the items of two bulks.
use vstd::prelude::*;

use crate::bulk::{min_len, Bulk};
use crate::into_bulk::IntoBulk;
use crate::util::reversed;

verus! {

/// `s` pairs up the items of `x` and `y` by position, stopping at the shorter one.
pub open spec fn zipped<A, B>(x: Seq<A>, y: Seq<B>, s: Seq<(A, B)>) -> bool {
    &&& s.len() == min_len(x.len() as int, y.len() as int)
    &&& forall|i: int| 0 <= i < s.len() ==> #[trigger] s[i] == (x[i], y[i])
}

/// A bulk that yields the items of `a` and `b` in pairs; it is as long as the shorter one.
pub struct Zip<A, B> {
    a: A,
    b: B,
}

impl<A, B> View for Zip<A, B> {
    type V = (A, B);

    closed spec fn view(&self) -> (A, B) {
        (self.a, self.b)
    }
}

impl<A: Bulk, B: Bulk> Zip<A, B> {
    pub(crate) fn new(a: A, b: B) -> (r: Self)
        ensures
            r@ == (a, b),
    {
        Zip { a, b }
    }
}

/// Converts the arguments to bulks and zips them.
pub fn zip<A: IntoBulk, B: IntoBulk>(a: A, b: B) -> (r: Zip<A::IntoBulk, B::IntoBulk>)
    ensures
        a.converts(r@.0),
        b.converts(r@.1),
        a.bulkable() ==> r@.0.wf(),
        b.bulkable() ==> r@.1.wf(),
{
    Zip::new(a.into_bulk(), b.into_bulk())
}

/// Converts the arguments to bulks and zips them, the first one cut to the length of the
/// second where it is longer.
pub fn rzip<A: IntoBulk, B: IntoBulk>(a: A, b: B) -> (r: Zip<A::IntoBulk, B::IntoBulk>)
    ensures
        a.converts(r@.0),
        b.converts(r@.1),
        a.bulkable() ==> r@.0.wf(),
        b.bulkable() ==> r@.1.wf(),
{
    Zip::new(a.into_bulk(), b.into_bulk())
}

/// Pairs up the items of `x` and `y` by position, dropping the excess of the longer one.
pub fn zip_items<X, Y>(x: Vec<X>, y: Vec<Y>) -> (r: Vec<(X, Y)>)
    ensures
        zipped(x@, y@, r@),
{
    let ghost xs = x@;
    let ghost ys = y@;
    let mut rx = reversed(x);
    let mut ry = reversed(y);
    let mut r: Vec<(X, Y)> = Vec::new();
    while rx.len() > 0 && ry.len() > 0
        invariant
            xs == x@,
            ys == y@,
            r@.len() + rx@.len() == xs.len(),
            r@.len() + ry@.len() == ys.len(),
            forall|j: int| 0 <= j < rx@.len() ==> rx@[j] == xs[xs.len() - 1 - j],
            forall|j: int| 0 <= j < ry@.len() ==> ry@[j] == ys[ys.len() - 1 - j],
            forall|j: int| 0 <= j < r@.len() ==> #[trigger] r@[j] == (xs[j], ys[j]),
        decreases rx.len(),
    {
        let a = rx.pop().unwrap();
        let b = ry.pop().unwrap();
        assert(a == xs[r@.len() as int] && b == ys[r@.len() as int]);
        r.push((a, b));
    }
    r
}

impl<A: Bulk, B: Bulk> Bulk for Zip<A, B> {
    type Item = (A::Item, B::Item);

    open spec fn wf(&self) -> bool {
        self@.0.wf() && self@.1.wf()
    }

    open spec fn spec_len(&self) -> nat {
        min_len(self@.0.spec_len() as int, self@.1.spec_len() as int) as nat
    }

    open spec fn yields(&self, s: Seq<(A::Item, B::Item)>) -> bool {
        exists|x: Seq<A::Item>, y: Seq<B::Item>|
            #![trigger self@.0.yields(x), self@.1.yields(y)]
            self@.0.yields(x) && self@.1.yields(y) && zipped(x, y, s)
    }

    proof fn lemma_yields_len(&self, s: Seq<(A::Item, B::Item)>) {
        let (x, y) = choose|x: Seq<A::Item>, y: Seq<B::Item>|
            #![trigger self@.0.yields(x), self@.1.yields(y)]
            self@.0.yields(x) && self@.1.yields(y) && zipped(x, y, s);
        self@.0.lemma_yields_len(x);
        self@.1.lemma_yields_len(y);
    }

    fn len(&self) -> (n: usize) {
        assert(self@.0 == self.a && self@.1 == self.b);
        let n = self.a.len();
        let m = self.b.len();
        if n < m {
            n
        } else {
            m
        }
    }

    fn collect_vec(self) -> (v: Vec<(A::Item, B::Item)>) {
        let ghost c = self;
        assert(c@.0 == self.a && c@.1 == self.b);
        let Zip { a, b } = self;
        let x = a.collect_vec();
        let y = b.collect_vec();
        let ghost xs = x@;
        let ghost ys = y@;
        let v = zip_items(x, y);
        assert(c@.0.yields(xs) && c@.1.yields(ys));
        assert(c.yields(v@));
        v
    }

    /// Walks `a` and then `b` backwards; their closures run in that order.
    fn collect_rev_vec(self) -> (v: Vec<(A::Item, B::Item)>) {
        let ghost c = self;
        assert(c@.0 == self.a && c@.1 == self.b);
        let Zip { a, b } = self;
        let xr = a.collect_rev_vec();
        let yr = b.collect_rev_vec();
        let x = reversed(xr);
        let y = reversed(yr);
        let ghost xs = x@;
        let ghost ys = y@;
        let w = zip_items(x, y);
        assert(c@.0.yields(xs) && c@.1.yields(ys));
        assert(c.yields(w@));
        let r = reversed(w);
        assert(r@.reverse() =~= w@);
        r
    }
}

} // verus!
