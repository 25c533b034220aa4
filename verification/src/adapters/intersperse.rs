//! Placing a clone of a separator between adjacent items.
use vstd::prelude::*;

use crate::bulk::Bulk;
use crate::util::reversed;

verus! {

/// The number of items of a bulk of `n` items with separators between adjacent ones.
pub open spec fn interspersed_len(n: nat) -> nat {
    if n == 0 {
        0
    } else {
        (2 * n - 1) as nat
    }
}

/// `s` holds the items of `t` at even positions, with items between them that satisfy
/// `sep_ok`.
pub open spec fn interleaved<T>(t: Seq<T>, s: Seq<T>) -> bool {
    &&& s.len() == interspersed_len(t.len())
    &&& forall|i: int| 0 <= i < t.len() ==> #[trigger] s[2 * i] == t[i]
}

/// A bulk that yields the items of `bulk` with a clone of `separator` between adjacent
/// items.
pub struct Intersperse<B: Bulk> {
    bulk: B,
    separator: B::Item,
}

impl<B: Bulk> View for Intersperse<B> {
    type V = (B, B::Item);

    closed spec fn view(&self) -> (B, B::Item) {
        (self.bulk, self.separator)
    }
}

impl<B: Bulk> Intersperse<B> where B::Item: Clone {
    pub(crate) fn new(bulk: B, separator: B::Item) -> (r: Self)
        ensures
            r@ == (bulk, separator),
    {
        Intersperse { bulk, separator }
    }
}

impl<B: Bulk> Bulk for Intersperse<B> where B::Item: Clone {
    type Item = B::Item;

    open spec fn wf(&self) -> bool {
        &&& self@.0.wf()
        &&& interspersed_len(self@.0.spec_len()) <= usize::MAX
    }

    open spec fn spec_len(&self) -> nat {
        interspersed_len(self@.0.spec_len())
    }

    open spec fn yields(&self, s: Seq<B::Item>) -> bool {
        exists|t: Seq<B::Item>|
            #[trigger] self@.0.yields(t) && interleaved(t, s) && forall|i: int|
                0 <= i < t.len() - 1 ==> cloned(self@.1, #[trigger] s[2 * i + 1])
    }

    proof fn lemma_yields_len(&self, s: Seq<B::Item>) {
        let t = choose|t: Seq<B::Item>|
            #[trigger] self@.0.yields(t) && interleaved(t, s) && forall|i: int|
                0 <= i < t.len() - 1 ==> cloned(self@.1, #[trigger] s[2 * i + 1]);
        self@.0.lemma_yields_len(t);
    }

    fn len(&self) -> (n: usize) {
        assert(self@.0 == self.bulk);
        let l = self.bulk.len();
        if l == 0 {
            0
        } else {
            l + (l - 1)
        }
    }

    fn collect_vec(self) -> (v: Vec<B::Item>) {
        let ghost b = self;
        assert(b@.0 == self.bulk && b@.1 == self.separator);
        let Intersperse { bulk, separator } = self;
        let t = bulk.collect_vec();
        let ghost ts = t@;
        let n = t.len();
        let mut rest = reversed(t);
        let mut v: Vec<B::Item> = Vec::new();
        let mut i: usize = 0;
        while rest.len() > 0
            invariant
                ts.len() == n,
                i + rest@.len() == n,
                forall|j: int| 0 <= j < rest@.len() ==> rest@[j] == ts[ts.len() - 1 - j],
                v@.len() == interspersed_len(i as nat),
                forall|j: int| 0 <= j < i ==> #[trigger] v@[2 * j] == ts[j],
                forall|j: int| 0 <= j < i - 1 ==> cloned(separator, #[trigger] v@[2 * j + 1]),
            decreases rest.len(),
        {
            let x = rest.pop().unwrap();
            assert(x == ts[i as int]);
            if i > 0 {
                let c = separator.clone();
                v.push(c);
                assert(v@[2 * (i - 1) + 1] == c);
            }
            v.push(x);
            assert(v@[2 * i as int] == x);
            i = i + 1;
        }
        assert(b@.0.yields(ts));
        assert(b.yields(v@));
        v
    }
}

} // verus!
