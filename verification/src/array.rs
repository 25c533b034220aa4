//! Bulks over arrays: by value and by reference.
use vstd::prelude::*;

use crate::bulk::Bulk as BulkTrait;
use crate::slice::refs_mut;
use crate::util::{array_to_vec, slice_swap, swapped};

verus! {

/// A bulk that moves the items out of an array.
pub struct IntoBulk<T, const N: usize> {
    array: [T; N],
}

/// A bulk over references to the items of an array.
pub struct Bulk<'a, T, const N: usize> {
    array: &'a [T; N],
}

impl<T, const N: usize> View for IntoBulk<T, N> {
    type V = Seq<T>;

    closed spec fn view(&self) -> Seq<T> {
        self.array@
    }
}

impl<'a, T, const N: usize> View for Bulk<'a, T, N> {
    type V = Seq<T>;

    closed spec fn view(&self) -> Seq<T> {
        self.array@
    }
}

impl<T, const N: usize> IntoBulk<T, N> {
    /// Returns the array the bulk was made from.
    pub fn into_inner(self) -> (a: [T; N])
        ensures
            a@ == self@,
    {
        self.array
    }
}

impl<T, const N: usize> IntoBulk<T, N> {
    /// Swaps the items at `a` and `b` in place.
    pub fn swap_inplace(&mut self, a: usize, b: usize)
        requires
            a < N,
            b < N,
        ensures
            final(self)@ == swapped(old(self)@, a as int, b as int),
    {
        slice_swap(&mut self.array, a, b);
    }

    /// Swaps the items at `a` and `b` in place; fails, changing nothing, when an index is
    /// out of bounds.
    pub fn try_swap_inplace(&mut self, a: usize, b: usize) -> (r: Result<(), ()>)
        ensures
            r is Ok <==> (a < N && b < N),
            r is Ok ==> final(self)@ == swapped(old(self)@, a as int, b as int),
            r is Err ==> final(self)@ == old(self)@,
    {
        if a < N && b < N {
            self.swap_inplace(a, b);
            Ok(())
        } else {
            Err(())
        }
    }
}

impl<'a, T, const N: usize> Bulk<'a, T, N> {
    /// Returns the array the bulk refers to.
    pub fn into_inner(self) -> (a: &'a [T; N])
        ensures
            a@ == self@,
    {
        self.array
    }
}

impl<T, const N: usize> BulkTrait for IntoBulk<T, N> {
    type Item = T;

    open spec fn wf(&self) -> bool {
        true
    }

    open spec fn spec_len(&self) -> nat {
        N as nat
    }

    open spec fn yields(&self, s: Seq<T>) -> bool {
        s == self@
    }

    proof fn lemma_yields_len(&self, s: Seq<T>) {
        assert(self.array@.len() == N);
    }

    fn len(&self) -> (n: usize) {
        N
    }

    fn collect_vec(self) -> (v: Vec<T>) {
        let ghost b = self;
        assert(self@ == self.array@);
        let v = array_to_vec(self.array);
        assert(v@ == b@);
        assert(b.yields(v@));
        v
    }
}

impl<'a, T, const N: usize> BulkTrait for Bulk<'a, T, N> {
    type Item = &'a T;

    open spec fn wf(&self) -> bool {
        true
    }

    open spec fn spec_len(&self) -> nat {
        N as nat
    }

    open spec fn yields(&self, s: Seq<&'a T>) -> bool {
        &&& s.len() == self@.len()
        &&& forall|i: int| 0 <= i < s.len() ==> *s[i] == self@[i]
    }

    proof fn lemma_yields_len(&self, s: Seq<&'a T>) {
        assert(self.array@.len() == N);
    }

    fn len(&self) -> (n: usize) {
        N
    }

    fn collect_vec(self) -> (v: Vec<&'a T>) {
        let ghost b = self;
        let a = self.array;
        assert(self@ == a@);
        let mut v: Vec<&'a T> = Vec::new();
        let mut i: usize = 0;
        while i < N
            invariant
                a@ == self@,
                a@.len() == N,
                i <= N,
                v@.len() == i,
                forall|j: int| 0 <= j < i ==> *v@[j] == a@[j],
            decreases N - i,
        {
            v.push(&a[i]);
            i = i + 1;
        }
        assert(b.yields(v@));
        v
    }
}

impl<T, const N: usize> crate::into_bulk::IntoBulk for [T; N] {
    type IntoBulk = IntoBulk<T, N>;

    open spec fn converts(&self, b: IntoBulk<T, N>) -> bool {
        b@ == self@
    }

    open spec fn bulkable(&self) -> bool {
        true
    }

    fn into_bulk(self) -> (b: IntoBulk<T, N>) {
        IntoBulk { array: self }
    }
}

impl<'a, T, const N: usize> crate::into_bulk::IntoBulk for &'a [T; N] {
    type IntoBulk = Bulk<'a, T, N>;

    open spec fn converts(&self, b: Bulk<'a, T, N>) -> bool {
        b@ == self@
    }

    open spec fn bulkable(&self) -> bool {
        true
    }

    fn into_bulk(self) -> (b: Bulk<'a, T, N>) {
        Bulk { array: self }
    }
}

/// A bulk over mutable references to the items of an array.
///
/// What the bulk yields is described by the values the items hold when it is made; what
/// is written through the references lands in the array.
pub struct BulkMut<'a, T, const N: usize> {
    pub array: &'a mut [T; N],
}

impl<'a, T, const N: usize> View for BulkMut<'a, T, N> {
    type V = Seq<T>;

    closed spec fn view(&self) -> Seq<T> {
        self.array@
    }
}

impl<'a, T, const N: usize> BulkMut<'a, T, N> {
    /// Swaps the items at `a` and `b` in place.
    pub fn swap_inplace(&mut self, a: usize, b: usize)
        requires
            a < old(self)@.len(),
            b < old(self)@.len(),
        ensures
            final(self)@ == swapped(old(self)@, a as int, b as int),
    {
        slice_swap(self.array, a, b);
    }

    /// Swaps the items at `a` and `b` in place; fails, changing nothing, when an index is
    /// out of bounds.
    pub fn try_swap_inplace(&mut self, a: usize, b: usize) -> (r: Result<(), ()>)
        ensures
            r is Ok <==> (a < old(self)@.len() && b < old(self)@.len()),
            r is Ok ==> final(self)@ == swapped(old(self)@, a as int, b as int),
            r is Err ==> final(self)@ == old(self)@,
    {
        if a < N && b < N {
            self.swap_inplace(a, b);
            Ok(())
        } else {
            Err(())
        }
    }
}

impl<'a, T, const N: usize> BulkTrait for BulkMut<'a, T, N> {
    type Item = &'a mut T;

    open spec fn wf(&self) -> bool {
        true
    }

    open spec fn spec_len(&self) -> nat {
        N as nat
    }

    open spec fn yields(&self, s: Seq<&'a mut T>) -> bool {
        &&& s.len() == N
        &&& forall|i: int| 0 <= i < s.len() ==> *s[i] == self@[i]
    }

    proof fn lemma_yields_len(&self, s: Seq<&'a mut T>) {
    }

    fn len(&self) -> (n: usize) {
        N
    }

    /// What is written through the `i`-th reference ends up as the `i`-th item of the array.
    fn collect_vec(self) -> (v: Vec<&'a mut T>)
        ensures
            forall|j: int| 0 <= j < v@.len() ==> final(self.array)@[j] == *final(v@[j]),
    {
        let ghost b = self;
        proof {
            assert(b@.len() == N) by {
                broadcast use vstd::array::group_array_axioms;
            }
        }
        let v = refs_mut(self.array);
        assert(b.yields(v@));
        v
    }
}

impl<'a, T, const N: usize> crate::into_bulk::IntoBulk for &'a mut [T; N] {
    type IntoBulk = BulkMut<'a, T, N>;

    open spec fn converts(&self, b: BulkMut<'a, T, N>) -> bool {
        b@ == (*self)@
    }

    open spec fn bulkable(&self) -> bool {
        true
    }

    fn into_bulk(self) -> (b: BulkMut<'a, T, N>)
        ensures
            final(b.array)@ == final(self)@,
    {
        BulkMut { array: self }
    }
}

impl<'a, T: 'a, const N: usize> crate::into_bulk::AsBulkMut<'a> for [T; N] {
    type AsBulkMut = BulkMut<'a, T, N>;

    open spec fn as_mut_converts(&'a self, b: BulkMut<'a, T, N>) -> bool {
        b@ == self@
    }

    open spec fn as_mut_bulkable(&'a self) -> bool {
        true
    }

    fn bulk_mut(&'a mut self) -> (b: BulkMut<'a, T, N>)
        ensures
            final(b.array)@ == final(self)@,
    {
        crate::into_bulk::IntoBulk::into_bulk(self)
    }
}

} // verus!
