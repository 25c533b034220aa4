//! Collecting a bulk into the collection that fits it best: an array of the right length
//! when the length of the bulk is fixed by its type, and a vector otherwise.
use vstd::prelude::*;

use crate::adapters::array_chunks::ArrayChunks;
use crate::adapters::chain::Chain;
use crate::adapters::cloned::{CloneRef, Cloned};
use crate::adapters::copied::{CopyRef, Copied};
use crate::adapters::empty::Empty;
use crate::adapters::enumerate::Enumerate;
use crate::adapters::enumerate_from::EnumerateFrom;
use crate::adapters::flat_map::FlatMap;
use crate::adapters::flatten::Flatten;
use crate::adapters::inspect::Inspect;
use crate::adapters::intersperse::Intersperse;
use crate::adapters::intersperse_with::IntersperseWith;
use crate::adapters::map::MapBulk;
use crate::adapters::map_windows::MapWindows;
use crate::adapters::merge::Merge;
use crate::adapters::mutate::Mutate;
use crate::adapters::once::Once;
use crate::adapters::once_with::OnceWith;
use crate::adapters::repeat_n::RepeatN;
use crate::adapters::repeat_n_with::RepeatNWith;
use crate::adapters::resize::Resize;
use crate::adapters::resize_with::ResizeWith;
use crate::adapters::rev::Rev;
use crate::adapters::skip::Skip;
use crate::adapters::step_by::StepBy;
use crate::adapters::take::Take;
use crate::adapters::zip::Zip;
use crate::bulk::Bulk;
use crate::from_bulk::FromBulk;
use crate::range::Step;

verus! {

/// A collection shape that can hold items of another type in the same shape: an array of
/// `N` items stays an array of `N`, and a vector stays a vector.
pub trait Reshape<T, U>: FromBulk<T> {
    type Out: FromBulk<U>;

    /// Both shapes hold the same numbers of items.
    proof fn lemma_reshape_accepts(n: nat)
        ensures
            Self::accepts(n) == Self::Out::accepts(n),
    ;
}

impl<T, U, const N: usize> Reshape<T, U> for [T; N] {
    type Out = [U; N];

    proof fn lemma_reshape_accepts(n: nat) {
    }
}

impl<T, U> Reshape<T, U> for Vec<T> {
    type Out = Vec<U>;

    proof fn lemma_reshape_accepts(n: nat) {
    }
}

/// A bulk together with the collection nearest to it.
pub trait CollectNearest: Bulk {
    type Nearest: FromBulk<Self::Item>;

    /// The nearest collection can hold as many items as the bulk yields.
    proof fn lemma_nearest_accepts(&self)
        requires
            self.wf(),
        ensures
            Self::Nearest::accepts(self.spec_len()),
    ;

    /// Collects the items into the nearest collection.
    fn collect_nearest(self) -> (c: Self::Nearest)
        requires
            self.wf(),
        ensures
            exists|s: Seq<Self::Item>| #[trigger] self.yields(s) && Self::Nearest::collected(s, c),
    {
        proof {
            self.lemma_nearest_accepts();
        }
        self.collect()
    }
}

impl<T, const N: usize> CollectNearest for crate::array::IntoBulk<T, N> {
    type Nearest = [T; N];

    proof fn lemma_nearest_accepts(&self) {
        assert(<[T; N] as FromBulk<T>>::accepts(self.spec_len()));
    }
}

impl<'a, T, const N: usize> CollectNearest for crate::array::Bulk<'a, T, N> {
    type Nearest = [&'a T; N];

    proof fn lemma_nearest_accepts(&self) {
        assert(<[&'a T; N] as FromBulk<&'a T>>::accepts(self.spec_len()));
    }
}

impl<'a, T, const N: usize> CollectNearest for crate::array::BulkMut<'a, T, N> {
    type Nearest = [&'a mut T; N];

    proof fn lemma_nearest_accepts(&self) {
        assert(<[&'a mut T; N] as FromBulk<&'a mut T>>::accepts(self.spec_len()));
    }
}

impl<T> CollectNearest for Once<T> {
    type Nearest = [T; 1];

    proof fn lemma_nearest_accepts(&self) {
        assert(<[T; 1] as FromBulk<T>>::accepts(self.spec_len()));
    }
}

impl<T, F: FnOnce() -> T> CollectNearest for OnceWith<F> {
    type Nearest = [T; 1];

    proof fn lemma_nearest_accepts(&self) {
        assert(<[T; 1] as FromBulk<T>>::accepts(self.spec_len()));
    }
}

impl<T> CollectNearest for Empty<T> {
    type Nearest = [T; 0];

    proof fn lemma_nearest_accepts(&self) {
        assert(<[T; 0] as FromBulk<T>>::accepts(self.spec_len()));
    }
}

impl<B: CollectNearest, U, F: FnMut(B::Item) -> U> CollectNearest for MapBulk<B, F> where
    B::Nearest: Reshape<B::Item, U>,
 {
    type Nearest = <B::Nearest as Reshape<B::Item, U>>::Out;

    proof fn lemma_nearest_accepts(&self) {
        self@.0.lemma_nearest_accepts();
        <B::Nearest as Reshape<B::Item, U>>::lemma_reshape_accepts(self@.0.spec_len());
    }
}

impl<B: CollectNearest> CollectNearest for Enumerate<B> where
    B::Nearest: Reshape<B::Item, (usize, B::Item)>,
 {
    type Nearest = <B::Nearest as Reshape<B::Item, (usize, B::Item)>>::Out;

    proof fn lemma_nearest_accepts(&self) {
        self@.lemma_nearest_accepts();
        <B::Nearest as Reshape<B::Item, (usize, B::Item)>>::lemma_reshape_accepts(self@.spec_len());
    }
}

impl<B: CollectNearest> CollectNearest for EnumerateFrom<B> where
    B::Nearest: Reshape<B::Item, (usize, B::Item)>,
 {
    type Nearest = <B::Nearest as Reshape<B::Item, (usize, B::Item)>>::Out;

    proof fn lemma_nearest_accepts(&self) {
        self@.0.lemma_nearest_accepts();
        <B::Nearest as Reshape<B::Item, (usize, B::Item)>>::lemma_reshape_accepts(self@.0.spec_len());
    }
}

impl<B: CollectNearest> CollectNearest for Copied<B> where
    B::Item: CopyRef,
    B::Nearest: Reshape<B::Item, <B::Item as CopyRef>::Target>,
 {
    type Nearest = <B::Nearest as Reshape<B::Item, <B::Item as CopyRef>::Target>>::Out;

    proof fn lemma_nearest_accepts(&self) {
        self@.lemma_nearest_accepts();
        <B::Nearest as Reshape<B::Item, <B::Item as CopyRef>::Target>>::lemma_reshape_accepts(self@.spec_len());
    }
}

impl<B: CollectNearest> CollectNearest for Cloned<B> where
    B::Item: CloneRef,
    B::Nearest: Reshape<B::Item, <B::Item as CloneRef>::Target>,
 {
    type Nearest = <B::Nearest as Reshape<B::Item, <B::Item as CloneRef>::Target>>::Out;

    proof fn lemma_nearest_accepts(&self) {
        self@.lemma_nearest_accepts();
        <B::Nearest as Reshape<B::Item, <B::Item as CloneRef>::Target>>::lemma_reshape_accepts(self@.spec_len());
    }
}

impl<B: CollectNearest> CollectNearest for Rev<B> {
    type Nearest = B::Nearest;

    proof fn lemma_nearest_accepts(&self) {
        self@.lemma_nearest_accepts();
    }
}

impl<B: CollectNearest, F: FnMut(&B::Item)> CollectNearest for Inspect<B, F> {
    type Nearest = B::Nearest;

    proof fn lemma_nearest_accepts(&self) {
        self@.0.lemma_nearest_accepts();
    }
}

impl<B: CollectNearest, F: FnMut(&mut B::Item)> CollectNearest for Mutate<B, F> {
    type Nearest = B::Nearest;

    proof fn lemma_nearest_accepts(&self) {
        self@.0.lemma_nearest_accepts();
    }
}

impl<T> CollectNearest for crate::vec::IntoBulk<T> {
    type Nearest = Vec<T>;

    proof fn lemma_nearest_accepts(&self) {
        assert(<Vec<T> as FromBulk<T>>::accepts(self.spec_len()));
    }
}

impl<T: Step> CollectNearest for crate::range::IntoBulk<T> {
    type Nearest = Vec<T>;

    proof fn lemma_nearest_accepts(&self) {
        assert(<Vec<T> as FromBulk<T>>::accepts(self.spec_len()));
    }
}

impl<T> CollectNearest for crate::option::IntoBulk<T> {
    type Nearest = Vec<T>;

    proof fn lemma_nearest_accepts(&self) {
        assert(<Vec<T> as FromBulk<T>>::accepts(self.spec_len()));
    }
}

impl<'a, T> CollectNearest for crate::option::Bulk<'a, T> {
    type Nearest = Vec<&'a T>;

    proof fn lemma_nearest_accepts(&self) {
        assert(<Vec<&'a T> as FromBulk<&'a T>>::accepts(self.spec_len()));
    }
}

impl<'a, T> CollectNearest for crate::option::BulkMut<'a, T> {
    type Nearest = Vec<&'a mut T>;

    proof fn lemma_nearest_accepts(&self) {
        assert(<Vec<&'a mut T> as FromBulk<&'a mut T>>::accepts(self.spec_len()));
    }
}

impl<'a, T> CollectNearest for crate::slice::Bulk<'a, T> {
    type Nearest = Vec<&'a T>;

    proof fn lemma_nearest_accepts(&self) {
        assert(<Vec<&'a T> as FromBulk<&'a T>>::accepts(self.spec_len()));
    }
}

impl<'a, T> CollectNearest for crate::slice::BulkMut<'a, T> {
    type Nearest = Vec<&'a mut T>;

    proof fn lemma_nearest_accepts(&self) {
        assert(<Vec<&'a mut T> as FromBulk<&'a mut T>>::accepts(self.spec_len()));
    }
}

impl<A: Bulk, B: Bulk<Item = A::Item>> CollectNearest for Chain<A, B> {
    type Nearest = Vec<A::Item>;

    proof fn lemma_nearest_accepts(&self) {
        assert(<Vec<A::Item> as FromBulk<A::Item>>::accepts(self.spec_len()));
    }
}

impl<A: Bulk, B: Bulk> CollectNearest for Zip<A, B> {
    type Nearest = Vec<(A::Item, B::Item)>;

    proof fn lemma_nearest_accepts(&self) {
        assert(<Vec<(A::Item, B::Item)> as FromBulk<(A::Item, B::Item)>>::accepts(self.spec_len()));
    }
}

impl<B: Bulk> CollectNearest for Skip<B> {
    type Nearest = Vec<B::Item>;

    proof fn lemma_nearest_accepts(&self) {
        assert(<Vec<B::Item> as FromBulk<B::Item>>::accepts(self.spec_len()));
    }
}

impl<B: Bulk> CollectNearest for Take<B> {
    type Nearest = Vec<B::Item>;

    proof fn lemma_nearest_accepts(&self) {
        assert(<Vec<B::Item> as FromBulk<B::Item>>::accepts(self.spec_len()));
    }
}

impl<B: Bulk> CollectNearest for StepBy<B> {
    type Nearest = Vec<B::Item>;

    proof fn lemma_nearest_accepts(&self) {
        assert(<Vec<B::Item> as FromBulk<B::Item>>::accepts(self.spec_len()));
    }
}

impl<B: Bulk> CollectNearest for Resize<B> where B::Item: Copy {
    type Nearest = Vec<B::Item>;

    proof fn lemma_nearest_accepts(&self) {
        assert(<Vec<B::Item> as FromBulk<B::Item>>::accepts(self.spec_len()));
    }
}

impl<B: Bulk, F: FnMut() -> B::Item> CollectNearest for ResizeWith<B, F> {
    type Nearest = Vec<B::Item>;

    proof fn lemma_nearest_accepts(&self) {
        assert(<Vec<B::Item> as FromBulk<B::Item>>::accepts(self.spec_len()));
    }
}

impl<B: Bulk, const N: usize> CollectNearest for ArrayChunks<B, N> {
    type Nearest = Vec<[B::Item; N]>;

    proof fn lemma_nearest_accepts(&self) {
        assert(<Vec<[B::Item; N]> as FromBulk<[B::Item; N]>>::accepts(self.spec_len()));
    }
}

impl<T: Clone> CollectNearest for RepeatN<T> {
    type Nearest = Vec<T>;

    proof fn lemma_nearest_accepts(&self) {
        assert(<Vec<T> as FromBulk<T>>::accepts(self.spec_len()));
    }
}

impl<T, F: FnMut() -> T> CollectNearest for RepeatNWith<F> {
    type Nearest = Vec<T>;

    proof fn lemma_nearest_accepts(&self) {
        assert(<Vec<T> as FromBulk<T>>::accepts(self.spec_len()));
    }
}

impl<Lhs: Bulk, Rhs: Bulk, O, F: FnMut(Lhs::Item, Rhs::Item) -> O> CollectNearest for Merge<Lhs, Rhs, F> where Lhs::Item: Into<O>, Rhs::Item: Into<O> {
    type Nearest = Vec<O>;

    proof fn lemma_nearest_accepts(&self) {
        assert(<Vec<O> as FromBulk<O>>::accepts(self.spec_len()));
    }
}

impl<B: Bulk, U, const M: usize, F: FnMut(B::Item) -> [U; M]> CollectNearest for FlatMap<B, F> {
    type Nearest = Vec<U>;

    proof fn lemma_nearest_accepts(&self) {
        assert(<Vec<U> as FromBulk<U>>::accepts(self.spec_len()));
    }
}

impl<T, const M: usize, B: Bulk<Item = [T; M]>> CollectNearest for Flatten<B> {
    type Nearest = Vec<T>;

    proof fn lemma_nearest_accepts(&self) {
        assert(<Vec<T> as FromBulk<T>>::accepts(self.spec_len()));
    }
}

impl<B: Bulk> CollectNearest for Intersperse<B> where B::Item: Clone {
    type Nearest = Vec<B::Item>;

    proof fn lemma_nearest_accepts(&self) {
        assert(<Vec<B::Item> as FromBulk<B::Item>>::accepts(self.spec_len()));
    }
}

impl<B: Bulk, G: FnMut() -> B::Item> CollectNearest for IntersperseWith<B, G> {
    type Nearest = Vec<B::Item>;

    proof fn lemma_nearest_accepts(&self) {
        assert(<Vec<B::Item> as FromBulk<B::Item>>::accepts(self.spec_len()));
    }
}

impl<B: Bulk, R, F: FnMut(&[B::Item; N]) -> R, const N: usize> CollectNearest for MapWindows<B, F, N> where B::Item: Copy {
    type Nearest = Vec<R>;

    proof fn lemma_nearest_accepts(&self) {
        assert(<Vec<R> as FromBulk<R>>::accepts(self.spec_len()));
    }
}

} // verus!
