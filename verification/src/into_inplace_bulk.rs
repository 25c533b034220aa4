//! Turning a value into a bulk whose items can be swapped in place.
use vstd::prelude::*;

use crate::bulk::Bulk;
use crate::into_bulk::IntoBulk;

verus! {

/// A value that can be turned into a bulk that stores its items, so that they can be
/// rearranged in place before it is consumed.
pub trait IntoInplaceBulk: IntoBulk {
    /// Evaluates the bulk into a vector-backed bulk of the same items.
    fn into_inplace_bulk(self) -> (b: crate::vec::IntoBulk<<Self::IntoBulk as Bulk>::Item>)
        requires
            self.bulkable(),
        ensures
            exists|c: Self::IntoBulk| #[trigger] self.converts(c) && c.yields(b@),
    ;
}

impl<I: IntoBulk> IntoInplaceBulk for I {
    fn into_inplace_bulk(self) -> (b: crate::vec::IntoBulk<<Self::IntoBulk as Bulk>::Item>) {
        let ghost me = self;
        let c = self.into_bulk();
        let ghost cc = c;
        let v = c.collect_vec();
        let b = crate::vec::IntoBulk::new(v);
        assert(me.converts(cc) && cc.yields(b@));
        b
    }
}

} // verus!
