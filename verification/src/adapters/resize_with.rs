//! Making a bulk exactly a given length, padding with the results of a closure.
use vstd::prelude::*;

use crate::adapters::repeat_n_with::push_generated;
use crate::bulk::{min_len, Bulk};
use crate::into_bulk::IntoBulk;

verus! {

/// `s` holds the first `n` items of `t` (all of them if fewer), then results of calling
/// `f` up to length `n`.
pub open spec fn resized_with<T, F: FnMut() -> T>(t: Seq<T>, n: nat, f: F, s: Seq<T>) -> bool {
    &&& s.len() == n
    &&& s.take(min_len(n as int, t.len() as int)) == t.take(min_len(n as int, t.len() as int))
    &&& forall|i: int| t.len() <= i < n ==> call_ensures(f, (), #[trigger] s[i])
}

/// A bulk that yields exactly `n` items: the first items of `bulk`, then results of
/// calling `padder`.
pub struct ResizeWith<B, F> {
    bulk: B,
    n: usize,
    padder: F,
}

impl<B, F> View for ResizeWith<B, F> {
    type V = (B, usize, F);

    closed spec fn view(&self) -> (B, usize, F) {
        (self.bulk, self.n, self.padder)
    }
}

impl<B: Bulk, F: FnMut() -> B::Item> ResizeWith<B, F> {
    pub(crate) fn new(bulk: B, n: usize, padder: F) -> (r: Self)
        ensures
            r@ == (bulk, n, padder),
    {
        ResizeWith { bulk, n, padder }
    }
}

/// Converts `iterable` to a bulk and makes it exactly `n` items long, padding with the
/// results of `f`.
pub fn resize_with<I: IntoBulk, F: FnMut() -> <I::IntoBulk as Bulk>::Item>(iterable: I, n: usize, f: F) -> (r: ResizeWith<
    I::IntoBulk,
    F,
>)
    ensures
        iterable.converts(r@.0),
        r@.1 == n,
        r@.2 == f,
        iterable.bulkable() ==> r@.0.wf(),
{
    ResizeWith::new(iterable.into_bulk(), n, f)
}

impl<B: Bulk, F: FnMut() -> B::Item> Bulk for ResizeWith<B, F> {
    type Item = B::Item;

    open spec fn wf(&self) -> bool {
        self@.0.wf() && call_requires(self@.2, ())
    }

    open spec fn spec_len(&self) -> nat {
        self@.1 as nat
    }

    open spec fn yields(&self, s: Seq<B::Item>) -> bool {
        exists|t: Seq<B::Item>| #[trigger] self@.0.yields(t) && resized_with(t, self@.1 as nat, self@.2, s)
    }

    proof fn lemma_yields_len(&self, s: Seq<B::Item>) {
    }

    fn len(&self) -> (n: usize) {
        assert(self@.1 == self.n);
        self.n
    }

    fn collect_vec(self) -> (v: Vec<B::Item>) {
        let ghost b = self;
        assert(b@.0 == self.bulk && b@.1 == self.n && b@.2 == self.padder);
        let ResizeWith { bulk, n, padder } = self;
        let mut v = bulk.collect_vec();
        let ghost t = v@;
        assert(b@.0.yields(t));
        if n < v.len() {
            let _rest = v.split_off(n);
        }
        let m = v.len();
        let ghost mm = min_len(n as int, t.len() as int);
        assert(v@ =~= t.take(mm));
        if m < n {
            push_generated(&mut v, padder, n - m);
            assert(v@.take(mm) =~= t.take(mm));
            assert forall|i: int| t.len() <= i < n implies call_ensures(b@.2, (), #[trigger] v@[i]) by {
                assert(v@[i] == v@.skip(m as int)[i - m]);
            }
        } else {
            assert(v@.take(mm) =~= t.take(mm));
        }
        assert(v@.len() == n);
        assert(v@.take(mm) == t.take(mm));
        assert(forall|i: int| t.len() <= i < n ==> call_ensures(b@.2, (), #[trigger] v@[i]));
        assert(resized_with(t, n as nat, b@.2, v@));
        assert(b.yields(v@));
        v
    }
}

} // verus!
