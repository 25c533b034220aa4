//! Repeating one value a given number of times.
use vstd::prelude::*;

use crate::bulk::Bulk;

verus! {

/// `s` has `n` items: clones of `value` followed by `value` itself last.
pub open spec fn repeated<T: Clone>(value: T, n: nat, s: Seq<T>) -> bool {
    &&& s.len() == n
    &&& n > 0 ==> s[n - 1] == value
    &&& forall|i: int| 0 <= i < n - 1 ==> cloned(value, #[trigger] s[i])
}

/// Pushes `n` items onto `v`: clones of `value`, and `value` itself last.
pub fn push_repeated<T: Clone>(v: &mut Vec<T>, value: T, n: usize)
    ensures
        final(v)@.len() == old(v)@.len() + n,
        final(v)@.take(old(v)@.len() as int) == old(v)@,
        repeated(value, n as nat, final(v)@.skip(old(v)@.len() as int)),
{
    let ghost start = v@;
    if n == 0 {
        assert(v@.skip(start.len() as int) =~= Seq::<T>::empty());
        assert(v@.take(start.len() as int) =~= start);
        return;
    }
    let mut i: usize = 1;
    while i < n
        invariant
            1 <= i <= n,
            v@.len() == start.len() + i - 1,
            v@.take(start.len() as int) == start,
            forall|j: int| start.len() <= j < v@.len() ==> cloned(value, #[trigger] v@[j]),
        decreases n - i,
    {
        let c = value.clone();
        v.push(c);
        assert(v@.take(start.len() as int) =~= start);
        i = i + 1;
    }
    v.push(value);
    assert(v@.take(start.len() as int) =~= start);
    assert(v@.skip(start.len() as int)[n - 1] == v@[v@.len() - 1]);
}

/// A bulk that yields `n` copies of `value`: clones of it, with the value itself last.
pub struct RepeatN<T> {
    value: T,
    n: usize,
}

impl<T> View for RepeatN<T> {
    type V = (T, usize);

    closed spec fn view(&self) -> (T, usize) {
        (self.value, self.n)
    }
}

/// Creates a bulk that yields `value` `n` times.
pub fn repeat_n<T: Clone>(value: T, n: usize) -> (r: RepeatN<T>)
    ensures
        r@ == (value, n),
{
    RepeatN { value, n }
}

impl<T: Clone> Bulk for RepeatN<T> {
    type Item = T;

    open spec fn wf(&self) -> bool {
        true
    }

    open spec fn spec_len(&self) -> nat {
        self@.1 as nat
    }

    open spec fn yields(&self, s: Seq<T>) -> bool {
        repeated(self@.0, self@.1 as nat, s)
    }

    proof fn lemma_yields_len(&self, s: Seq<T>) {
    }

    fn len(&self) -> (n: usize) {
        assert(self@.1 == self.n);
        self.n
    }

    fn collect_vec(self) -> (v: Vec<T>) {
        let ghost b = self;
        assert(b@.0 == self.value && b@.1 == self.n);
        let mut v: Vec<T> = Vec::new();
        push_repeated(&mut v, self.value, self.n);
        assert(v@.skip(0) =~= v@);
        assert(b.yields(v@));
        v
    }
}

} // verus!
