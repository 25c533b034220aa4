//! The adapters of a bulk, as methods.
use vstd::prelude::*;

use crate::adapters::array_chunks::ArrayChunks;
use crate::adapters::chain::Chain;
use crate::adapters::cloned::{CloneRef, Cloned};
use crate::adapters::copied::{CopyRef, Copied};
use crate::adapters::enumerate::Enumerate;
use crate::adapters::enumerate_from::EnumerateFrom;
use crate::adapters::flat_map::FlatMap;
use crate::adapters::flatten::Flatten;
use crate::adapters::inspect::Inspect;
use crate::adapters::intersperse::Intersperse;
use crate::adapters::intersperse_with::IntersperseWith;
use crate::adapters::map::MapBulk;
use crate::adapters::map_windows::MapWindows;
use crate::adapters::merge::Merge;
use crate::adapters::mutate::Mutate;
use crate::adapters::resize::Resize;
use crate::adapters::resize_with::ResizeWith;
use crate::adapters::rev::Rev;
use crate::adapters::skip::Skip;
use crate::adapters::step_by::StepBy;
use crate::adapters::take::Take;
use crate::adapters::zip::Zip;
use crate::bulk::Bulk;
use crate::into_bulk::IntoBulk;

verus! {

/// Methods that build new bulks out of a bulk; every bulk has them.
pub trait BulkExt: Bulk {
    /// Reverses the order of the items.
    fn rev(self) -> (r: Rev<Self>)
        ensures
            r@ == self,
    ;

    /// Maps each item with `f`.
    fn map<U, F: FnMut(Self::Item) -> U>(self, f: F) -> (r: MapBulk<Self, F>)
        ensures
            r@ == (self, f),
    ;

    /// Yields the items of this bulk followed by those of `other`.
    fn chain<U: IntoBulk>(self, other: U) -> (r: Chain<Self, U::IntoBulk>)
        where
            U::IntoBulk: Bulk<Item = Self::Item>,
        ensures
            r@.0 == self,
            other.converts(r@.1),
            other.bulkable() ==> r@.1.wf(),
    ;

    /// Pairs up the items of this bulk with those of `other`, as far as the shorter goes.
    fn zip<U: IntoBulk>(self, other: U) -> (r: Zip<Self, U::IntoBulk>)
        ensures
            r@.0 == self,
            other.converts(r@.1),
            other.bulkable() ==> r@.1.wf(),
    ;

    /// Pairs each item with its index.
    fn enumerate(self) -> (r: Enumerate<Self>)
        ensures
            r@ == self,
    ;

    /// Pairs each item with its index, counted from `start`.
    fn enumerate_from(self, start: usize) -> (r: EnumerateFrom<Self>)
        ensures
            r@ == (self, start),
    ;

    /// Skips the first `n` items.
    fn skip(self, n: usize) -> (r: Skip<Self>)
        ensures
            r@ == (self, n),
    ;

    /// Keeps only the first `n` items.
    fn take(self, n: usize) -> (r: Take<Self>)
        ensures
            r@ == (self, n),
    ;

    /// Copies the values that the items, which are references, point to.
    fn copied(self) -> (r: Copied<Self>)
        where
            Self::Item: CopyRef,
        ensures
            r@ == self,
    ;

    /// Clones the values that the items, which are references, point to.
    fn cloned(self) -> (r: Cloned<Self>)
        where
            Self::Item: CloneRef,
        ensures
            r@ == self,
    ;

    /// Calls `f` on a reference to each item, passing the item on.
    fn inspect<F: FnMut(&Self::Item)>(self, f: F) -> (r: Inspect<Self, F>)
        ensures
            r@ == (self, f),
    ;

    /// Yields the first item and then every `step`-th item after it. The step must not be
    /// zero.
    fn step_by(self, step: usize) -> (r: StepBy<Self>)
        requires
            step > 0,
        ensures
            r@ == (self, step),
    ;

    /// Calls `f` on a mutable reference to each item, passing the changed item on.
    fn mutate<F: FnMut(&mut Self::Item)>(self, f: F) -> (r: Mutate<Self, F>)
        ensures
            r@ == (self, f),
    ;

    /// Makes the bulk exactly `n` items long, padding with copies of `element`.
    fn resize(self, n: usize, element: Self::Item) -> (r: Resize<Self>)
        where
            Self::Item: Copy,
        ensures
            r@ == (self, n, element),
    ;

    /// Makes the bulk exactly `n` items long, padding with the results of `f`.
    fn resize_with<F: FnMut() -> Self::Item>(self, n: usize, f: F) -> (r: ResizeWith<Self, F>)
        ensures
            r@ == (self, n, f),
    ;

    /// Places a clone of `separator` between adjacent items.
    fn intersperse(self, separator: Self::Item) -> (r: Intersperse<Self>)
        where
            Self::Item: Clone,
        ensures
            r@ == (self, separator),
    ;

    /// Places the result of a call of `separator` between adjacent items.
    fn intersperse_with<G: FnMut() -> Self::Item>(self, separator: G) -> (r: IntersperseWith<Self, G>)
        ensures
            r@ == (self, separator),
    ;

    /// Combines the items of this bulk and `other` by position with `f`, converting the
    /// extra items of the longer one.
    fn merge<U: IntoBulk, O, F: FnMut(Self::Item, <U::IntoBulk as Bulk>::Item) -> O>(self, other: U, f: F) -> (r: Merge<
        Self,
        U::IntoBulk,
        F,
    >)
        where
            Self::Item: Into<O>,
            <U::IntoBulk as Bulk>::Item: Into<O>,
        ensures
            r@.0 == self,
            other.converts(r@.1),
            r@.2 == f,
            other.bulkable() ==> r@.1.wf(),
    ;

    /// Groups the items into consecutive chunks of `N`, which must not be zero.
    fn array_chunks<const N: usize>(self) -> (r: ArrayChunks<Self, N>)
        requires
            N > 0,
        ensures
            r@ == self,
    ;

    /// Yields the items of the arrays that this bulk yields, one array after another.
    fn flatten<T, const M: usize>(self) -> (r: Flatten<Self>)
        where
            Self: Bulk<Item = [T; M]>,
        ensures
            r@ == self,
    ;

    /// Maps each item to an array with `f` and yields the items of the arrays.
    fn flat_map<U, const M: usize, F: FnMut(Self::Item) -> [U; M]>(self, f: F) -> (r: FlatMap<Self, F>)
        ensures
            r@ == (self, f),
    ;

    /// Calls `f` on each window of `N` adjacent items; `N` must not be zero.
    fn map_windows<R, F: FnMut(&[Self::Item; N]) -> R, const N: usize>(self, f: F) -> (r: MapWindows<Self, F, N>)
        where
            Self::Item: Copy,
        requires
            N > 0,
        ensures
            r@ == (self, f),
    ;
}

impl<B: Bulk> BulkExt for B {
    fn intersperse(self, separator: Self::Item) -> (r: Intersperse<Self>)
        where
            Self::Item: Clone,
    {
        Intersperse::new(self, separator)
    }

    fn intersperse_with<G: FnMut() -> Self::Item>(self, separator: G) -> (r: IntersperseWith<Self, G>) {
        IntersperseWith::new(self, separator)
    }

    fn merge<U: IntoBulk, O, F: FnMut(Self::Item, <U::IntoBulk as Bulk>::Item) -> O>(self, other: U, f: F) -> (r: Merge<
        Self,
        U::IntoBulk,
        F,
    >)
        where
            Self::Item: Into<O>,
            <U::IntoBulk as Bulk>::Item: Into<O>,
    {
        Merge::new(self, other.into_bulk(), f)
    }

    fn array_chunks<const N: usize>(self) -> (r: ArrayChunks<Self, N>) {
        ArrayChunks::new(self)
    }

    fn flatten<T, const M: usize>(self) -> (r: Flatten<Self>)
        where
            Self: Bulk<Item = [T; M]>,
    {
        Flatten::new(self)
    }

    fn flat_map<U, const M: usize, F: FnMut(Self::Item) -> [U; M]>(self, f: F) -> (r: FlatMap<Self, F>) {
        FlatMap::new(self, f)
    }

    fn map_windows<R, F: FnMut(&[Self::Item; N]) -> R, const N: usize>(self, f: F) -> (r: MapWindows<Self, F, N>)
        where
            Self::Item: Copy,
    {
        MapWindows::new(self, f)
    }

    fn step_by(self, step: usize) -> (r: StepBy<Self>) {
        StepBy::new(self, step)
    }

    fn mutate<F: FnMut(&mut Self::Item)>(self, f: F) -> (r: Mutate<Self, F>) {
        Mutate::new(self, f)
    }

    fn resize(self, n: usize, element: Self::Item) -> (r: Resize<Self>)
        where
            Self::Item: Copy,
    {
        Resize::new(self, n, element)
    }

    fn resize_with<F: FnMut() -> Self::Item>(self, n: usize, f: F) -> (r: ResizeWith<Self, F>) {
        ResizeWith::new(self, n, f)
    }

    fn inspect<F: FnMut(&Self::Item)>(self, f: F) -> (r: Inspect<Self, F>) {
        Inspect::new(self, f)
    }

    fn copied(self) -> (r: Copied<Self>)
        where
            Self::Item: CopyRef,
    {
        Copied::new(self)
    }

    fn cloned(self) -> (r: Cloned<Self>)
        where
            Self::Item: CloneRef,
    {
        Cloned::new(self)
    }

    fn skip(self, n: usize) -> (r: Skip<Self>) {
        Skip::new(self, n)
    }

    fn take(self, n: usize) -> (r: Take<Self>) {
        Take::new(self, n)
    }

    fn zip<U: IntoBulk>(self, other: U) -> (r: Zip<Self, U::IntoBulk>) {
        Zip::new(self, other.into_bulk())
    }

    fn enumerate(self) -> (r: Enumerate<Self>) {
        Enumerate::new(self)
    }

    fn enumerate_from(self, start: usize) -> (r: EnumerateFrom<Self>) {
        EnumerateFrom::new(self, start)
    }

    fn chain<U: IntoBulk>(self, other: U) -> (r: Chain<Self, U::IntoBulk>)
        where
            U::IntoBulk: Bulk<Item = Self::Item>,
    {
        Chain::new(self, other.into_bulk())
    }

    fn rev(self) -> (r: Rev<Self>) {
        Rev::new(self)
    }

    fn map<U, F: FnMut(Self::Item) -> U>(self, f: F) -> (r: MapBulk<Self, F>) {
        MapBulk::new(self, f)
    }
}

} // verus!
