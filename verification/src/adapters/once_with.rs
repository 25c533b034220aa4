//! The bulk with exactly one item, made by a closure.
use vstd::prelude::*;

use crate::bulk::Bulk;

verus! {

/// A bulk that yields the result of calling `f` once.
pub struct OnceWith<F> {
    f: F,
}

impl<F> View for OnceWith<F> {
    type V = F;

    closed spec fn view(&self) -> F {
        self.f
    }
}

/// Creates a bulk that calls `f` once and yields its result.
pub fn once_with<T, F: FnOnce() -> T>(f: F) -> (r: OnceWith<F>)
    ensures
        r@ == f,
{
    OnceWith { f }
}

impl<T, F: FnOnce() -> T> Bulk for OnceWith<F> {
    type Item = T;

    open spec fn wf(&self) -> bool {
        call_requires(self@, ())
    }

    open spec fn spec_len(&self) -> nat {
        1
    }

    open spec fn yields(&self, s: Seq<T>) -> bool {
        s.len() == 1 && call_ensures(self@, (), s[0])
    }

    proof fn lemma_yields_len(&self, s: Seq<T>) {
    }

    fn len(&self) -> (n: usize) {
        1
    }

    fn collect_vec(self) -> (v: Vec<T>) {
        let ghost b = self;
        assert(b@ == self.f);
        let f = self.f;
        let x = f();
        let mut v: Vec<T> = Vec::new();
        v.push(x);
        assert(v@[0] == x);
        assert(b.yields(v@));
        v
    }

    fn collect_rev_vec(self) -> (v: Vec<T>) {
        let w = self.collect_vec();
        let r = crate::util::reversed(w);
        assert(r@.reverse() =~= w@);
        r
    }
}

} // verus!
