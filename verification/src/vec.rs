//! Bulks over vectors.
use vstd::prelude::*;

use crate::bulk::Bulk;
use crate::into_bulk::{AsBulkMut, IntoBulk as IntoBulkTrait};
use crate::util::{slice_swap, swapped};

verus! {

/// A bulk that moves the items out of a vector.
pub struct IntoBulk<T> {
    vec: Vec<T>,
}

impl<T> View for IntoBulk<T> {
    type V = Seq<T>;

    closed spec fn view(&self) -> Seq<T> {
        self.vec@
    }
}

impl<T> IntoBulk<T> {
    /// Makes a bulk that yields the items of `vec` in order.
    pub fn new(vec: Vec<T>) -> (b: Self)
        ensures
            b@ == vec@,
    {
        IntoBulk { vec }
    }

    /// Returns the vector the bulk was made from.
    pub fn into_inner(self) -> (v: Vec<T>)
        ensures
            v@ == self@,
    {
        self.vec
    }

    /// Swaps the items at `a` and `b` in place; fails, changing nothing, when an index is
    /// out of bounds.
    pub fn try_swap_inplace(&mut self, a: usize, b: usize) -> (r: Result<(), ()>)
        ensures
            r is Ok <==> (a < old(self)@.len() && b < old(self)@.len()),
            r is Ok ==> final(self)@ == swapped(old(self)@, a as int, b as int),
            r is Err ==> final(self)@ == old(self)@,
    {
        if a < self.vec.len() && b < self.vec.len() {
            slice_swap(self.vec.as_mut_slice(), a, b);
            Ok(())
        } else {
            Err(())
        }
    }

    /// Swaps the items at `a` and `b` in place.
    pub fn swap_inplace(&mut self, a: usize, b: usize)
        requires
            a < old(self)@.len(),
            b < old(self)@.len(),
        ensures
            final(self)@ == swapped(old(self)@, a as int, b as int),
    {
        slice_swap(self.vec.as_mut_slice(), a, b);
    }
}

impl<T> Bulk for IntoBulk<T> {
    type Item = T;

    open spec fn wf(&self) -> bool {
        true
    }

    open spec fn spec_len(&self) -> nat {
        self@.len()
    }

    open spec fn yields(&self, s: Seq<T>) -> bool {
        s == self@
    }

    proof fn lemma_yields_len(&self, s: Seq<T>) {
    }

    fn len(&self) -> (n: usize) {
        self.vec.len()
    }

    fn collect_vec(self) -> (v: Vec<T>) {
        let ghost b = self;
        let v = self.vec;
        assert(b.yields(v@));
        v
    }
}

impl<T> crate::into_bulk::IntoBulk for Vec<T> {
    type IntoBulk = IntoBulk<T>;

    open spec fn converts(&self, b: IntoBulk<T>) -> bool {
        b@ == self@
    }

    open spec fn bulkable(&self) -> bool {
        true
    }

    fn into_bulk(self) -> (b: IntoBulk<T>) {
        IntoBulk::new(self)
    }
}

impl<'a, T> crate::into_bulk::IntoBulk for &'a Vec<T> {
    type IntoBulk = crate::slice::Bulk<'a, T>;

    open spec fn converts(&self, b: crate::slice::Bulk<'a, T>) -> bool {
        b@ == (*self)@
    }

    open spec fn bulkable(&self) -> bool {
        true
    }

    fn into_bulk(self) -> (b: crate::slice::Bulk<'a, T>) {
        self.as_slice().into_bulk()
    }
}

impl<'a, T> crate::into_bulk::IntoBulk for &'a mut Vec<T> {
    type IntoBulk = crate::slice::BulkMut<'a, T>;

    open spec fn converts(&self, b: crate::slice::BulkMut<'a, T>) -> bool {
        b@ == (*self)@
    }

    open spec fn bulkable(&self) -> bool {
        true
    }

    fn into_bulk(self) -> (b: crate::slice::BulkMut<'a, T>)
        ensures
            final(b.slice)@ == final(self)@,
    {
        self.as_mut_slice().into_bulk()
    }
}

impl<'a, T: 'a> AsBulkMut<'a> for Vec<T> {
    type AsBulkMut = crate::slice::BulkMut<'a, T>;

    open spec fn as_mut_converts(&'a self, b: crate::slice::BulkMut<'a, T>) -> bool {
        b@ == self@
    }

    open spec fn as_mut_bulkable(&'a self) -> bool {
        true
    }

    fn bulk_mut(&'a mut self) -> (b: crate::slice::BulkMut<'a, T>)
        ensures
            final(b.slice)@ == final(self)@,
    {
        self.into_bulk()
    }
}

} // verus!
