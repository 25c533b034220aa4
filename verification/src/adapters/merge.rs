//! Merging two bulks item by item.
use vstd::prelude::*;

use crate::bulk::Bulk;
use crate::into_bulk::IntoBulk;
use crate::util::reversed;

verus! {

/// The larger of `a` and `b`.
pub open spec fn max_len(a: int, b: int) -> int {
    if a < b {
        b
    } else {
        a
    }
}

/// `s` merges `x` and `y` by position: where both have an item, `f` combines them; past
/// the end of the shorter one, the items of the longer one are converted with `into`.
pub open spec fn merged<L: Into<O>, R: Into<O>, O, F: FnMut(L, R) -> O>(
    f: F,
    x: Seq<L>,
    y: Seq<R>,
    s: Seq<O>,
) -> bool {
    &&& s.len() == max_len(x.len() as int, y.len() as int)
    &&& forall|i: int|
        0 <= i < s.len() ==> if i < x.len() && i < y.len() {
            call_ensures(f, (x[i], y[i]), #[trigger] s[i])
        } else if i < x.len() {
            call_ensures(<L as Into<O>>::into, (x[i],), s[i])
        } else {
            call_ensures(<R as Into<O>>::into, (y[i],), s[i])
        }
}

/// Merges one position: both items combined with `f`, or the one that is there
/// converted.
fn merge_once<L: Into<O>, R: Into<O>, O, F: FnMut(L, R) -> O>(f: &mut F, lhs: Option<L>, rhs: Option<R>) -> (r: Option<O>)
    requires
        lhs is Some && rhs is Some ==> call_requires(*old(f), (lhs->0, rhs->0)),
    ensures
        *final(f) == *old(f),
        match (lhs, rhs) {
            (Some(a), Some(b)) => r matches Some(o) && call_ensures(*old(f), (a, b), o),
            (Some(a), None) => r matches Some(o) && call_ensures(<L as Into<O>>::into, (a,), o),
            (None, Some(b)) => r matches Some(o) && call_ensures(<R as Into<O>>::into, (b,), o),
            (None, None) => r is None,
        },
{
    match (lhs, rhs) {
        (Some(a), Some(b)) => Some(f(a, b)),
        (Some(a), None) => Some(a.into()),
        (None, Some(b)) => Some(b.into()),
        (None, None) => None,
    }
}

/// A bulk that combines the items of `lhs` and `rhs` by position with `f`; it is as long
/// as the longer one, whose extra items are converted into the output type.
pub struct Merge<Lhs, Rhs, F> {
    lhs: Lhs,
    rhs: Rhs,
    f: F,
}

impl<Lhs, Rhs, F> View for Merge<Lhs, Rhs, F> {
    type V = (Lhs, Rhs, F);

    closed spec fn view(&self) -> (Lhs, Rhs, F) {
        (self.lhs, self.rhs, self.f)
    }
}

impl<Lhs: Bulk, Rhs: Bulk, O, F: FnMut(Lhs::Item, Rhs::Item) -> O> Merge<Lhs, Rhs, F> where
    Lhs::Item: Into<O>,
    Rhs::Item: Into<O>,
 {
    pub(crate) fn new(lhs: Lhs, rhs: Rhs, f: F) -> (r: Self)
        ensures
            r@ == (lhs, rhs, f),
    {
        Merge { lhs, rhs, f }
    }
}

/// Converts the arguments to bulks and merges them with `f`.
pub fn merge<A: IntoBulk, B: IntoBulk, O, F: FnMut(<A::IntoBulk as Bulk>::Item, <B::IntoBulk as Bulk>::Item) -> O>(
    lhs: A,
    rhs: B,
    f: F,
) -> (r: Merge<A::IntoBulk, B::IntoBulk, F>) where
    <A::IntoBulk as Bulk>::Item: Into<O>,
    <B::IntoBulk as Bulk>::Item: Into<O>,

    ensures
        lhs.converts(r@.0),
        rhs.converts(r@.1),
        r@.2 == f,
        lhs.bulkable() ==> r@.0.wf(),
        rhs.bulkable() ==> r@.1.wf(),
{
    Merge::new(lhs.into_bulk(), rhs.into_bulk(), f)
}

impl<Lhs: Bulk, Rhs: Bulk, O, F: FnMut(Lhs::Item, Rhs::Item) -> O> Bulk for Merge<Lhs, Rhs, F> where
    Lhs::Item: Into<O>,
    Rhs::Item: Into<O>,
 {
    type Item = O;

    open spec fn wf(&self) -> bool {
        &&& self@.0.wf()
        &&& self@.1.wf()
        &&& forall|x: Seq<Lhs::Item>, y: Seq<Rhs::Item>|
            #![trigger self@.0.yields(x), self@.1.yields(y)]
            self@.0.yields(x) && self@.1.yields(y) ==> forall|i: int|
                0 <= i < x.len() && i < y.len() ==> call_requires(self@.2, (x[i], y[i]))
    }

    open spec fn spec_len(&self) -> nat {
        max_len(self@.0.spec_len() as int, self@.1.spec_len() as int) as nat
    }

    open spec fn yields(&self, s: Seq<O>) -> bool {
        exists|x: Seq<Lhs::Item>, y: Seq<Rhs::Item>|
            #![trigger self@.0.yields(x), self@.1.yields(y)]
            self@.0.yields(x) && self@.1.yields(y) && merged(self@.2, x, y, s)
    }

    proof fn lemma_yields_len(&self, s: Seq<O>) {
        let (x, y) = choose|x: Seq<Lhs::Item>, y: Seq<Rhs::Item>|
            #![trigger self@.0.yields(x), self@.1.yields(y)]
            self@.0.yields(x) && self@.1.yields(y) && merged(self@.2, x, y, s);
        self@.0.lemma_yields_len(x);
        self@.1.lemma_yields_len(y);
    }

    fn len(&self) -> (n: usize) {
        assert(self@.0 == self.lhs && self@.1 == self.rhs);
        let a = self.lhs.len();
        let b = self.rhs.len();
        if a < b {
            b
        } else {
            a
        }
    }

    fn collect_vec(self) -> (v: Vec<O>) {
        let ghost m = self;
        assert(m@.0 == self.lhs && m@.1 == self.rhs && m@.2 == self.f);
        let Merge { lhs, rhs, f } = self;
        let mut g = f;
        let x = lhs.collect_vec();
        let y = rhs.collect_vec();
        let ghost xs = x@;
        let ghost ys = y@;
        assert(m@.0.yields(xs) && m@.1.yields(ys));
        let mut rx = reversed(x);
        let mut ry = reversed(y);
        let mut v: Vec<O> = Vec::new();
        while rx.len() > 0 || ry.len() > 0
            invariant
                g == m@.2,
                forall|i: int| 0 <= i < xs.len() && i < ys.len() ==> call_requires(m@.2, (xs[i], ys[i])),
                v@.len() + rx@.len() == xs.len() || (rx@.len() == 0 && v@.len() >= xs.len()),
                v@.len() + ry@.len() == ys.len() || (ry@.len() == 0 && v@.len() >= ys.len()),
                v@.len() <= max_len(xs.len() as int, ys.len() as int),
                forall|j: int| 0 <= j < rx@.len() ==> rx@[j] == xs[xs.len() - 1 - j],
                forall|j: int| 0 <= j < ry@.len() ==> ry@[j] == ys[ys.len() - 1 - j],
                forall|i: int|
                    0 <= i < v@.len() ==> if i < xs.len() && i < ys.len() {
                        call_ensures(m@.2, (xs[i], ys[i]), #[trigger] v@[i])
                    } else if i < xs.len() {
                        call_ensures(<Lhs::Item as Into<O>>::into, (xs[i],), v@[i])
                    } else {
                        call_ensures(<Rhs::Item as Into<O>>::into, (ys[i],), v@[i])
                    },
            decreases rx@.len() + ry@.len(),
        {
            let k = v.len();
            let a = rx.pop();
            let b = ry.pop();
            proof {
                if a is Some {
                    assert(a->0 == xs[k as int]);
                }
                if b is Some {
                    assert(b->0 == ys[k as int]);
                }
            }
            let o = merge_once(&mut g, a, b).unwrap();
            v.push(o);
        }
        assert(m@.0.yields(xs) && m@.1.yields(ys));
        assert(m.yields(v@));
        v
    }

    fn collect_rev_vec(self) -> (v: Vec<O>) {
        let w = self.collect_vec();
        let r = crate::util::reversed(w);
        assert(r@.reverse() =~= w@);
        r
    }
}

} // verus!
