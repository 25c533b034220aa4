//! Bulks over options: an option is a bulk of at most one item.
use vstd::prelude::*;

use crate::bulk::Bulk as BulkTrait;

verus! {

/// The items of an option: its value if there is one.
pub open spec fn option_seq<T>(o: Option<T>) -> Seq<T> {
    match o {
        Some(x) => seq![x],
        None => Seq::empty(),
    }
}

/// A bulk that moves the value out of an option.
pub struct IntoBulk<T> {
    option: Option<T>,
}

/// A bulk over a reference to the value of an option.
pub struct Bulk<'a, T> {
    option: &'a Option<T>,
}

impl<T> View for IntoBulk<T> {
    type V = Option<T>;

    closed spec fn view(&self) -> Option<T> {
        self.option
    }
}

impl<'a, T> View for Bulk<'a, T> {
    type V = Option<T>;

    closed spec fn view(&self) -> Option<T> {
        *self.option
    }
}

impl<T> BulkTrait for IntoBulk<T> {
    type Item = T;

    open spec fn wf(&self) -> bool {
        true
    }

    open spec fn spec_len(&self) -> nat {
        option_seq(self@).len()
    }

    open spec fn yields(&self, s: Seq<T>) -> bool {
        s == option_seq(self@)
    }

    proof fn lemma_yields_len(&self, s: Seq<T>) {
    }

    fn len(&self) -> (n: usize) {
        assert(self@ == self.option);
        match &self.option {
            Some(_) => 1,
            None => 0,
        }
    }

    fn collect_vec(self) -> (v: Vec<T>) {
        let ghost b = self;
        let mut v: Vec<T> = Vec::new();
        assert(b@ == self.option);
        match self.option {
            Some(x) => v.push(x),
            None => {},
        }
        assert(v@ =~= option_seq(b@));
        assert(b.yields(v@));
        v
    }
}

impl<'a, T> BulkTrait for Bulk<'a, T> {
    type Item = &'a T;

    open spec fn wf(&self) -> bool {
        true
    }

    open spec fn spec_len(&self) -> nat {
        option_seq(self@).len()
    }

    open spec fn yields(&self, s: Seq<&'a T>) -> bool {
        &&& s.len() == option_seq(self@).len()
        &&& forall|i: int| 0 <= i < s.len() ==> *s[i] == option_seq(self@)[i]
    }

    proof fn lemma_yields_len(&self, s: Seq<&'a T>) {
    }

    fn len(&self) -> (n: usize) {
        assert(self@ == *self.option);
        match self.option {
            Some(_) => 1,
            None => 0,
        }
    }

    fn collect_vec(self) -> (v: Vec<&'a T>) {
        let ghost b = self;
        let mut v: Vec<&'a T> = Vec::new();
        assert(b@ == *self.option);
        match self.option {
            Some(x) => v.push(x),
            None => {},
        }
        assert(b.yields(v@));
        v
    }
}

impl<T> crate::into_bulk::IntoBulk for Option<T> {
    type IntoBulk = IntoBulk<T>;

    open spec fn converts(&self, b: IntoBulk<T>) -> bool {
        b@ == *self
    }

    open spec fn bulkable(&self) -> bool {
        true
    }

    fn into_bulk(self) -> (b: IntoBulk<T>) {
        IntoBulk { option: self }
    }
}

impl<'a, T> crate::into_bulk::IntoBulk for &'a Option<T> {
    type IntoBulk = Bulk<'a, T>;

    open spec fn converts(&self, b: Bulk<'a, T>) -> bool {
        b@ == **self
    }

    open spec fn bulkable(&self) -> bool {
        true
    }

    fn into_bulk(self) -> (b: Bulk<'a, T>) {
        Bulk { option: self }
    }
}

/// A bulk over a mutable reference to the value of an option.
///
/// What the bulk yields is described by the value the option holds when it is made; what
/// is written through the reference lands in the option.
pub struct BulkMut<'a, T> {
    pub option: &'a mut Option<T>,
}

impl<'a, T> View for BulkMut<'a, T> {
    type V = Option<T>;

    closed spec fn view(&self) -> Option<T> {
        *self.option
    }
}

impl<'a, T> BulkTrait for BulkMut<'a, T> {
    type Item = &'a mut T;

    open spec fn wf(&self) -> bool {
        true
    }

    open spec fn spec_len(&self) -> nat {
        option_seq(self@).len()
    }

    open spec fn yields(&self, s: Seq<&'a mut T>) -> bool {
        &&& s.len() == option_seq(self@).len()
        &&& forall|i: int| 0 <= i < s.len() ==> *s[i] == option_seq(self@)[i]
    }

    proof fn lemma_yields_len(&self, s: Seq<&'a mut T>) {
    }

    fn len(&self) -> (n: usize) {
        assert(self@ == *self.option);
        match &*self.option {
            Some(_) => 1,
            None => 0,
        }
    }

    /// What is written through the reference ends up in the option.
    fn collect_vec(self) -> (v: Vec<&'a mut T>)
        ensures
            v@.len() == 1 ==> *final(self.option) == Some(*final(v@[0])),
            v@.len() == 0 ==> *final(self.option) == None::<T>,
    {
        let ghost b = self;
        let mut v: Vec<&'a mut T> = Vec::new();
        assert(b@ == *self.option);
        match self.option.as_mut() {
            Some(x) => v.push(x),
            None => {},
        }
        assert(b.yields(v@));
        v
    }
}

impl<'a, T> crate::into_bulk::IntoBulk for &'a mut Option<T> {
    type IntoBulk = BulkMut<'a, T>;

    open spec fn converts(&self, b: BulkMut<'a, T>) -> bool {
        b@ == **self
    }

    open spec fn bulkable(&self) -> bool {
        true
    }

    fn into_bulk(self) -> (b: BulkMut<'a, T>)
        ensures
            *final(b.option) == *final(self),
    {
        BulkMut { option: self }
    }
}

impl<'a, T: 'a> crate::into_bulk::AsBulkMut<'a> for Option<T> {
    type AsBulkMut = BulkMut<'a, T>;

    open spec fn as_mut_converts(&'a self, b: BulkMut<'a, T>) -> bool {
        b@ == *self
    }

    open spec fn as_mut_bulkable(&'a self) -> bool {
        true
    }

    fn bulk_mut(&'a mut self) -> (b: BulkMut<'a, T>)
        ensures
            *final(b.option) == *final(self),
    {
        crate::into_bulk::IntoBulk::into_bulk(self)
    }
}

} // verus!
