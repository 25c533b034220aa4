//! Repeating the results of a closure a given number of times.
use vstd::prelude::*;

use crate::bulk::Bulk;

verus! {

/// Every item of `s` is a result of calling `f` with no arguments.
pub open spec fn generated<T, F: FnMut() -> T>(f: F, s: Seq<T>) -> bool {
    forall|i: int| 0 <= i < s.len() ==> call_ensures(f, (), #[trigger] s[i])
}

/// Pushes the results of `n` calls of `f` onto `v`.
pub fn push_generated<T, F: FnMut() -> T>(v: &mut Vec<T>, f: F, n: usize)
    requires
        call_requires(f, ()),
    ensures
        final(v)@.len() == old(v)@.len() + n,
        final(v)@.take(old(v)@.len() as int) == old(v)@,
        generated(f, final(v)@.skip(old(v)@.len() as int)),
{
    let ghost start = v@;
    let mut g = f;
    let mut i: usize = 0;
    while i < n
        invariant
            i <= n,
            g == f,
            call_requires(f, ()),
            v@.len() == start.len() + i,
            v@.take(start.len() as int) == start,
            forall|j: int| start.len() <= j < v@.len() ==> call_ensures(f, (), #[trigger] v@[j]),
        decreases n - i,
    {
        let x = g();
        v.push(x);
        assert(v@.take(start.len() as int) =~= start);
        i = i + 1;
    }
    assert(v@.take(start.len() as int) =~= start);
}

/// A bulk that yields the results of calling `f` `n` times.
pub struct RepeatNWith<F> {
    f: F,
    n: usize,
}

impl<F> View for RepeatNWith<F> {
    type V = (F, usize);

    closed spec fn view(&self) -> (F, usize) {
        (self.f, self.n)
    }
}

/// Creates a bulk that calls `f` `n` times and yields its results.
pub fn repeat_n_with<T, F: FnMut() -> T>(f: F, n: usize) -> (r: RepeatNWith<F>)
    ensures
        r@ == (f, n),
{
    RepeatNWith { f, n }
}

impl<T, F: FnMut() -> T> Bulk for RepeatNWith<F> {
    type Item = T;

    open spec fn wf(&self) -> bool {
        call_requires(self@.0, ())
    }

    open spec fn spec_len(&self) -> nat {
        self@.1 as nat
    }

    open spec fn yields(&self, s: Seq<T>) -> bool {
        s.len() == self@.1 && generated(self@.0, s)
    }

    proof fn lemma_yields_len(&self, s: Seq<T>) {
    }

    fn len(&self) -> (n: usize) {
        assert(self@.1 == self.n);
        self.n
    }

    fn collect_vec(self) -> (v: Vec<T>) {
        let ghost b = self;
        assert(b@.0 == self.f && b@.1 == self.n);
        let mut v: Vec<T> = Vec::new();
        push_generated(&mut v, self.f, self.n);
        assert(v@.skip(0) =~= v@);
        assert(b.yields(v@));
        v
    }

    /// Walking the bulk backwards calls `f` the same way as walking it forwards: the `k`-th
    /// item reached is the result of the `k`-th call.
    fn collect_rev_vec(self) -> (v: Vec<T>) {
        let ghost b = self;
        assert(b@.0 == self.f && b@.1 == self.n);
        let mut v: Vec<T> = Vec::new();
        push_generated(&mut v, self.f, self.n);
        assert(v@.skip(0) =~= v@);
        assert(generated(b@.0, v@.reverse())) by {
            assert forall|i: int| 0 <= i < v@.len() implies call_ensures(b@.0, (), #[trigger] v@.reverse()[i]) by {
                assert(v@.reverse()[i] == v@[v@.len() - 1 - i]);
            }
        }
        assert(b.yields(v@.reverse()));
        v
    }
}

} // verus!
