//! Bulks over slices.
use vstd::prelude::*;

use crate::bulk::Bulk as BulkTrait;
use crate::util::{slice_swap, swapped};

verus! {

/// A bulk over references to the items of a slice.
pub struct Bulk<'a, T> {
    slice: &'a [T],
}

impl<'a, T> View for Bulk<'a, T> {
    type V = Seq<T>;

    closed spec fn view(&self) -> Seq<T> {
        self.slice@
    }
}

impl<'a, T> Bulk<'a, T> {
    /// Returns the slice the bulk refers to.
    pub fn into_inner(self) -> (s: &'a [T])
        ensures
            s@ == self@,
    {
        self.slice
    }
}

impl<'a, T> BulkTrait for Bulk<'a, T> {
    type Item = &'a T;

    open spec fn wf(&self) -> bool {
        true
    }

    open spec fn spec_len(&self) -> nat {
        self@.len()
    }

    open spec fn yields(&self, s: Seq<&'a T>) -> bool {
        &&& s.len() == self@.len()
        &&& forall|i: int| 0 <= i < s.len() ==> *s[i] == self@[i]
    }

    proof fn lemma_yields_len(&self, s: Seq<&'a T>) {
    }

    fn len(&self) -> (n: usize) {
        self.slice.len()
    }

    fn collect_vec(self) -> (v: Vec<&'a T>) {
        let ghost b = self;
        let a = self.slice;
        assert(self@ == a@);
        let n = a.len();
        let mut v: Vec<&'a T> = Vec::new();
        let mut i: usize = 0;
        while i < n
            invariant
                a@ == b@,
                a@.len() == n,
                i <= n,
                v@.len() == i,
                forall|j: int| 0 <= j < i ==> *v@[j] == a@[j],
            decreases n - i,
        {
            v.push(&a[i]);
            i = i + 1;
        }
        assert(b.yields(v@));
        v
    }
}

impl<'a, T> crate::into_bulk::IntoBulk for &'a [T] {
    type IntoBulk = Bulk<'a, T>;

    open spec fn converts(&self, b: Bulk<'a, T>) -> bool {
        b@ == self@
    }

    open spec fn bulkable(&self) -> bool {
        true
    }

    fn into_bulk(self) -> (b: Bulk<'a, T>) {
        Bulk { slice: self }
    }
}

/// A bulk over mutable references to the items of a slice.
///
/// What the bulk yields is described by the values the items hold when it is made; what
/// is written through the references lands in the slice.
pub struct BulkMut<'a, T> {
    pub slice: &'a mut [T],
}

impl<'a, T> View for BulkMut<'a, T> {
    type V = Seq<T>;

    closed spec fn view(&self) -> Seq<T> {
        self.slice@
    }
}

impl<'a, T> BulkMut<'a, T> {
    /// Swaps the items at `a` and `b` in place.
    pub fn swap_inplace(&mut self, a: usize, b: usize)
        requires
            a < old(self)@.len(),
            b < old(self)@.len(),
        ensures
            final(self)@ == swapped(old(self)@, a as int, b as int),
    {
        slice_swap(self.slice, a, b);
    }

    /// Swaps the items at `a` and `b` in place; fails, changing nothing, when an index is
    /// out of bounds.
    pub fn try_swap_inplace(&mut self, a: usize, b: usize) -> (r: Result<(), ()>)
        ensures
            r is Ok <==> (a < old(self)@.len() && b < old(self)@.len()),
            r is Ok ==> final(self)@ == swapped(old(self)@, a as int, b as int),
            r is Err ==> final(self)@ == old(self)@,
    {
        if a < self.slice.len() && b < self.slice.len() {
            self.swap_inplace(a, b);
            Ok(())
        } else {
            Err(())
        }
    }
}

impl<'a, T> BulkTrait for BulkMut<'a, T> {
    type Item = &'a mut T;

    open spec fn wf(&self) -> bool {
        true
    }

    open spec fn spec_len(&self) -> nat {
        self@.len()
    }

    open spec fn yields(&self, s: Seq<&'a mut T>) -> bool {
        &&& s.len() == self@.len()
        &&& forall|i: int| 0 <= i < s.len() ==> *s[i] == self@[i]
    }

    proof fn lemma_yields_len(&self, s: Seq<&'a mut T>) {
    }

    fn len(&self) -> (n: usize) {
        self.slice.len()
    }

    /// What is written through the `i`-th reference ends up as the `i`-th item of the slice.
    fn collect_vec(self) -> (v: Vec<&'a mut T>)
        ensures
            final(self.slice)@.len() == v@.len(),
            forall|j: int| 0 <= j < v@.len() ==> final(self.slice)@[j] == *final(v@[j]),
    {
        let ghost b = self;
        let v = refs_mut(self.slice);
        assert(b.yields(v@));
        v
    }
}

/// Splits a mutable slice into mutable references to each of its items, in order.
pub(crate) fn refs_mut<'a, T>(slice: &'a mut [T]) -> (v: Vec<&'a mut T>)
    ensures
        v@.len() == old(slice)@.len(),
        forall|j: int| 0 <= j < v@.len() ==> *v@[j] == old(slice)@[j],
        final(slice)@.len() == v@.len(),
        forall|j: int| 0 <= j < v@.len() ==> final(slice)@[j] == *final(v@[j]),
{
    let ghost s = slice@;
    let ghost fin = final(slice)@;
    let mut rest: &'a mut [T] = slice;
    let n = rest.len();
    let mut v: Vec<&'a mut T> = Vec::new();
    while rest.len() > 0
        invariant
            s.len() == n,
            v@.len() + rest@.len() == n,
            rest@ == s.subrange(v@.len() as int, n as int),
            forall|j: int| 0 <= j < v@.len() ==> *v@[j] == s[j],
            fin == Seq::new(v@.len() as nat, |j: int| *final(v@[j])) + final(rest)@,
        decreases rest@.len(),
    {
        let r = rest;
        let (head, tail) = r.split_at_mut(1);
        let x = head.first_mut().unwrap();
        v.push(x);
        rest = tail;
    }
    v
}

impl<'a, T> crate::into_bulk::IntoBulk for &'a mut [T] {
    type IntoBulk = BulkMut<'a, T>;

    open spec fn converts(&self, b: BulkMut<'a, T>) -> bool {
        b@ == (*self)@
    }

    open spec fn bulkable(&self) -> bool {
        true
    }

    fn into_bulk(self) -> (b: BulkMut<'a, T>)
        ensures
            final(b.slice)@ == final(self)@,
    {
        BulkMut { slice: self }
    }
}

impl<'a, T: 'a> crate::into_bulk::AsBulkMut<'a> for [T] {
    type AsBulkMut = BulkMut<'a, T>;

    open spec fn as_mut_converts(&'a self, b: BulkMut<'a, T>) -> bool {
        b@ == self@
    }

    open spec fn as_mut_bulkable(&'a self) -> bool {
        true
    }

    fn bulk_mut(&'a mut self) -> (b: BulkMut<'a, T>)
        ensures
            final(b.slice)@ == final(self)@,
    {
        crate::into_bulk::IntoBulk::into_bulk(self)
    }
}

} // verus!
