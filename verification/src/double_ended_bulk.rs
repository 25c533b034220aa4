//! Consuming a bulk from its last item to its first.
use vstd::prelude::*;

use crate::bulk::{accepts_each, each_called, for_each_item, try_each_yields, try_for_each_item, Bulk};

verus! {

/// A bulk that can also be consumed last item first.
pub trait DoubleEndedBulk: Bulk {
    /// Calls `f` on each item, last item first.
    fn rev_for_each<F: FnMut(Self::Item)>(self, f: F)
        requires
            self.wf(),
            forall|s: Seq<Self::Item>| #[trigger] self.yields(s) ==> accepts_each(f, s),
        ensures
            exists|s: Seq<Self::Item>| #[trigger] self.yields(s) && each_called(f, s.reverse()),
    ;

    /// Calls the fallible `f` on each item, last item first, stopping at the first error
    /// and returning it.
    fn try_rev_for_each<E, F: FnMut(Self::Item) -> Result<(), E>>(self, f: F) -> (r: Result<(), E>)
        requires
            self.wf(),
            forall|s: Seq<Self::Item>| #[trigger] self.yields(s) ==> accepts_each(f, s),
        ensures
            exists|s: Seq<Self::Item>| #[trigger] self.yields(s) && try_each_yields(f, s.reverse(), r),
    ;
}

impl<B: Bulk> DoubleEndedBulk for B {
    fn rev_for_each<F: FnMut(B::Item)>(self, f: F) {
        let ghost b = self;
        let v = self.collect_rev_vec();
        let ghost s = v@.reverse();
        assert(b.yields(s));
        assert(s.reverse() =~= v@);
        assert(accepts_each(f, v@)) by {
            assert forall|i: int| 0 <= i < v@.len() implies call_requires(f, (v@[i],)) by {
                assert(v@[i] == s[s.len() - 1 - i]);
            }
        }
        for_each_item(v, f);
    }

    fn try_rev_for_each<E, F: FnMut(B::Item) -> Result<(), E>>(self, f: F) -> (r: Result<(), E>) {
        let ghost b = self;
        let v = self.collect_rev_vec();
        let ghost s = v@.reverse();
        assert(b.yields(s));
        assert(s.reverse() =~= v@);
        assert(accepts_each(f, v@)) by {
            assert forall|i: int| 0 <= i < v@.len() implies call_requires(f, (v@[i],)) by {
                assert(v@[i] == s[s.len() - 1 - i]);
            }
        }
        try_for_each_item(v, f)
    }
}

} // verus!
