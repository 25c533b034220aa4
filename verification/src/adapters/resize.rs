//! Making a bulk exactly a given length, padding with copies of a value.
use vstd::prelude::*;

use crate::bulk::{min_len, Bulk};
use crate::into_bulk::IntoBulk;

verus! {

/// `s` holds the first `n` items of `t` (all of them if fewer), then copies of `element`
/// up to length `n`.
pub open spec fn resized<T>(t: Seq<T>, n: nat, element: T, s: Seq<T>) -> bool {
    &&& s.len() == n
    &&& s.take(min_len(n as int, t.len() as int)) == t.take(min_len(n as int, t.len() as int))
    &&& forall|i: int| t.len() <= i < n ==> #[trigger] s[i] == element
}

/// A bulk that yields exactly `n` items: the first items of `bulk`, then copies of
/// `element`.
pub struct Resize<B: Bulk> {
    bulk: B,
    n: usize,
    element: B::Item,
}

impl<B: Bulk> View for Resize<B> {
    type V = (B, usize, B::Item);

    closed spec fn view(&self) -> (B, usize, B::Item) {
        (self.bulk, self.n, self.element)
    }
}

impl<B: Bulk> Resize<B> where B::Item: Copy {
    pub(crate) fn new(bulk: B, n: usize, element: B::Item) -> (r: Self)
        ensures
            r@ == (bulk, n, element),
    {
        Resize { bulk, n, element }
    }
}

/// Converts `iterable` to a bulk and makes it exactly `n` items long, padding with copies
/// of `element`.
pub fn resize<I: IntoBulk>(iterable: I, n: usize, element: <I::IntoBulk as Bulk>::Item) -> (r: Resize<
    I::IntoBulk,
>) where <I::IntoBulk as Bulk>::Item: Copy
    ensures
        iterable.converts(r@.0),
        r@.1 == n,
        r@.2 == element,
        iterable.bulkable() ==> r@.0.wf(),
{
    Resize::new(iterable.into_bulk(), n, element)
}

impl<B: Bulk> Bulk for Resize<B> where B::Item: Copy {
    type Item = B::Item;

    open spec fn wf(&self) -> bool {
        self@.0.wf()
    }

    open spec fn spec_len(&self) -> nat {
        self@.1 as nat
    }

    open spec fn yields(&self, s: Seq<B::Item>) -> bool {
        exists|t: Seq<B::Item>| #[trigger] self@.0.yields(t) && resized(t, self@.1 as nat, self@.2, s)
    }

    proof fn lemma_yields_len(&self, s: Seq<B::Item>) {
    }

    fn len(&self) -> (n: usize) {
        assert(self@.1 == self.n);
        self.n
    }

    fn collect_vec(self) -> (v: Vec<B::Item>) {
        let ghost b = self;
        assert(b@.0 == self.bulk && b@.1 == self.n && b@.2 == self.element);
        let Resize { bulk, n, element } = self;
        let mut v = bulk.collect_vec();
        let ghost t = v@;
        assert(b@.0.yields(t));
        if n < v.len() {
            let _rest = v.split_off(n);
        }
        let m = v.len();
        let ghost mm = min_len(n as int, t.len() as int);
        assert(v@ =~= t.take(mm));
        while v.len() < n
            invariant
                m == mm,
                mm <= t.len(),
                mm == n || mm == t.len(),
                m <= v@.len() <= n || (v@.len() == m && m == t.len() && n >= m),
                v@.len() >= m,
                v@.len() <= n || v@.len() == m,
                v@.take(mm) == t.take(mm),
                forall|i: int| m <= i < v@.len() ==> #[trigger] v@[i] == element,
            decreases n - v@.len(),
        {
            v.push(element);
            assert(v@.take(mm) =~= t.take(mm));
        }
        assert(b.yields(v@));
        v
    }
}

} // verus!
