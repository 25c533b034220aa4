//! Conversion of collections into bulks.
use vstd::prelude::*;

use crate::bulk::Bulk;

verus! {

/// A value that can be turned into a bulk.
///
/// `converts(b)` says that `b` is the bulk this value turns into, and `bulkable` that the
/// resulting bulk is ready to run.
pub trait IntoBulk: Sized {
    type IntoBulk: Bulk;

    spec fn converts(&self, b: Self::IntoBulk) -> bool;

    spec fn bulkable(&self) -> bool;

    /// Creates a bulk from a value.
    fn into_bulk(self) -> (b: Self::IntoBulk)
        ensures
            self.converts(b),
            self.bulkable() ==> b.wf(),
    ;
}

impl<B: Bulk> IntoBulk for B {
    type IntoBulk = B;

    open spec fn converts(&self, b: B) -> bool {
        b == *self
    }

    open spec fn bulkable(&self) -> bool {
        self.wf()
    }

    fn into_bulk(self) -> (b: B) {
        self
    }
}

/// A value whose reference can be turned into a bulk, yielding references to its items.
pub trait AsBulk<'a> {
    type AsBulk: Bulk;

    spec fn as_converts(&'a self, b: Self::AsBulk) -> bool;

    spec fn as_bulkable(&'a self) -> bool;

    /// Creates a bulk from a reference.
    fn bulk(&'a self) -> (b: Self::AsBulk)
        ensures
            self.as_converts(b),
            self.as_bulkable() ==> b.wf(),
    ;
}

impl<'a, T: 'a> AsBulk<'a> for T where &'a T: IntoBulk {
    type AsBulk = <&'a T as IntoBulk>::IntoBulk;

    open spec fn as_converts(&'a self, b: Self::AsBulk) -> bool {
        <&'a T as IntoBulk>::converts(&self, b)
    }

    open spec fn as_bulkable(&'a self) -> bool {
        <&'a T as IntoBulk>::bulkable(&self)
    }

    fn bulk(&'a self) -> (b: Self::AsBulk) {
        <&'a T as IntoBulk>::into_bulk(self)
    }
}

/// A value whose mutable reference can be turned into a bulk, yielding mutable references
/// to its items.
pub trait AsBulkMut<'a> {
    type AsBulkMut: Bulk;

    spec fn as_mut_converts(&'a self, b: Self::AsBulkMut) -> bool;

    spec fn as_mut_bulkable(&'a self) -> bool;

    /// Creates a bulk from a mutable reference.
    fn bulk_mut(&'a mut self) -> (b: Self::AsBulkMut)
        ensures
            old(self).as_mut_converts(b),
            old(self).as_mut_bulkable() ==> b.wf(),
    ;
}

} // verus!
