//! Placing the result of a closure between adjacent items.
use vstd::prelude::*;

use crate::adapters::intersperse::{interleaved, interspersed_len};
use crate::bulk::Bulk;
use crate::util::reversed;

verus! {

/// A bulk that yields the items of `bulk` with the result of a call of `separator`
/// between adjacent items; `separator` is not called when `bulk` has fewer than two items.
pub struct IntersperseWith<B, G> {
    bulk: B,
    separator: G,
}

impl<B, G> View for IntersperseWith<B, G> {
    type V = (B, G);

    closed spec fn view(&self) -> (B, G) {
        (self.bulk, self.separator)
    }
}

impl<B: Bulk, G: FnMut() -> B::Item> IntersperseWith<B, G> {
    pub(crate) fn new(bulk: B, separator: G) -> (r: Self)
        ensures
            r@ == (bulk, separator),
    {
        IntersperseWith { bulk, separator }
    }
}

impl<B: Bulk, G: FnMut() -> B::Item> Bulk for IntersperseWith<B, G> {
    type Item = B::Item;

    open spec fn wf(&self) -> bool {
        &&& self@.0.wf()
        &&& call_requires(self@.1, ())
        &&& interspersed_len(self@.0.spec_len()) <= usize::MAX
    }

    open spec fn spec_len(&self) -> nat {
        interspersed_len(self@.0.spec_len())
    }

    open spec fn yields(&self, s: Seq<B::Item>) -> bool {
        exists|t: Seq<B::Item>|
            #[trigger] self@.0.yields(t) && interleaved(t, s) && forall|i: int|
                0 <= i < t.len() - 1 ==> call_ensures(self@.1, (), #[trigger] s[2 * i + 1])
    }

    proof fn lemma_yields_len(&self, s: Seq<B::Item>) {
        let t = choose|t: Seq<B::Item>|
            #[trigger] self@.0.yields(t) && interleaved(t, s) && forall|i: int|
                0 <= i < t.len() - 1 ==> call_ensures(self@.1, (), #[trigger] s[2 * i + 1]);
        self@.0.lemma_yields_len(t);
    }

    fn len(&self) -> (n: usize) {
        assert(self@.0 == self.bulk);
        let l = self.bulk.len();
        if l == 0 {
            0
        } else {
            l + (l - 1)
        }
    }

    fn collect_vec(self) -> (v: Vec<B::Item>) {
        let ghost b = self;
        assert(b@.0 == self.bulk && b@.1 == self.separator);
        let IntersperseWith { bulk, separator } = self;
        let mut g = separator;
        let t = bulk.collect_vec();
        let ghost ts = t@;
        let n = t.len();
        let mut rest = reversed(t);
        let mut v: Vec<B::Item> = Vec::new();
        let mut i: usize = 0;
        while rest.len() > 0
            invariant
                g == b@.1,
                call_requires(b@.1, ()),
                ts.len() == n,
                i + rest@.len() == n,
                forall|j: int| 0 <= j < rest@.len() ==> rest@[j] == ts[ts.len() - 1 - j],
                v@.len() == interspersed_len(i as nat),
                forall|j: int| 0 <= j < i ==> #[trigger] v@[2 * j] == ts[j],
                forall|j: int| 0 <= j < i - 1 ==> call_ensures(b@.1, (), #[trigger] v@[2 * j + 1]),
            decreases rest.len(),
        {
            let x = rest.pop().unwrap();
            assert(x == ts[i as int]);
            if i > 0 {
                let c = g();
                v.push(c);
                assert(v@[2 * (i - 1) + 1] == c);
            }
            v.push(x);
            assert(v@[2 * i as int] == x);
            i = i + 1;
        }
        assert(b@.0.yields(ts));
        assert(b.yields(v@));
        v
    }
}

} // verus!
