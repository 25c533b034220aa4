//! Changing the items of a bulk in place as they pass.
use vstd::prelude::*;

use crate::bulk::Bulk;
use crate::util::reversed;

verus! {

/// A bulk that calls `f` on a mutable reference to each item of `bulk`, passing the
/// changed item on.
///
/// What `f` does to an item is said by a relation between the reference's value before the
/// call and its final value, which a spec function such as `yields` cannot hold; so
/// `yields` states the number of items only, and `collect_vec` and `collect_rev_vec` state
/// in their own contracts that each item is what one call of `f` left in the matching item
/// of `bulk`.
pub struct Mutate<B, F> {
    bulk: B,
    f: F,
}

impl<B, F> View for Mutate<B, F> {
    type V = (B, F);

    closed spec fn view(&self) -> (B, F) {
        (self.bulk, self.f)
    }
}

impl<B: Bulk, F: FnMut(&mut B::Item)> Mutate<B, F> {
    pub(crate) fn new(bulk: B, f: F) -> (r: Self)
        ensures
            r@ == (bulk, f),
    {
        Mutate { bulk, f }
    }
}

impl<B: Bulk, F: FnMut(&mut B::Item)> Bulk for Mutate<B, F> {
    type Item = B::Item;

    open spec fn wf(&self) -> bool {
        &&& self@.0.wf()
        &&& forall|x: &mut B::Item| call_requires(self@.1, (x,))
    }

    open spec fn spec_len(&self) -> nat {
        self@.0.spec_len()
    }

    open spec fn yields(&self, s: Seq<B::Item>) -> bool {
        exists|t: Seq<B::Item>| #[trigger] self@.0.yields(t) && s.len() == t.len()
    }

    proof fn lemma_yields_len(&self, s: Seq<B::Item>) {
        let t = choose|t: Seq<B::Item>| #[trigger] self@.0.yields(t) && s.len() == t.len();
        self@.0.lemma_yields_len(t);
    }

    fn len(&self) -> (n: usize) {
        assert(self@.0 == self.bulk);
        self.bulk.len()
    }

    /// Each item is what one call of `f`, through a mutable reference to the matching item
    /// of `bulk`, left there.
    fn collect_vec(self) -> (v: Vec<B::Item>)
        ensures
            exists|t: Seq<B::Item>, rs: Seq<&mut B::Item>|
                #![trigger self@.0.yields(t), rs.len()]
                self@.0.yields(t) && rs.len() == t.len() && v@.len() == t.len() && forall|k: int|
                    0 <= k < rs.len() ==> *rs[k] == t[k] && mut_ref_future(rs[k]) == v@[k] && call_ensures(
                        self@.1,
                        (#[trigger] rs[k],),
                        (),
                    ),
    {
        let ghost b = self;
        assert(b@.0 == self.bulk && b@.1 == self.f);
        let Mutate { bulk, f } = self;
        let t = bulk.collect_vec();
        let ghost ts = t@;
        let v = mutate_items(t, f);
        assert(b@.0.yields(ts));
        assert(b.yields(v@));
        v
    }

    /// Walks `bulk` backwards and calls `f` on its items in that order: the `k`-th item
    /// returned is what one call of `f`, through a mutable reference to the `k`-th item of
    /// `bulk` counted from the back, left there.
    fn collect_rev_vec(self) -> (v: Vec<B::Item>)
        ensures
            exists|t: Seq<B::Item>, rs: Seq<&mut B::Item>|
                #![trigger self@.0.yields(t), rs.len()]
                self@.0.yields(t) && rs.len() == t.len() && v@.len() == t.len() && forall|k: int|
                    0 <= k < rs.len() ==> *rs[k] == t[t.len() - 1 - k] && mut_ref_future(rs[k]) == v@[k]
                        && call_ensures(self@.1, (#[trigger] rs[k],), ()),
    {
        let ghost b = self;
        assert(b@.0 == self.bulk && b@.1 == self.f);
        let Mutate { bulk, f } = self;
        let t = bulk.collect_rev_vec();
        let ghost ts = t@.reverse();
        let v = mutate_items(t, f);
        assert(b@.0.yields(ts));
        assert(b.yields(v@.reverse()));
        v
    }
}

/// Calls `f` on a mutable reference to each item of `t`, in order, and returns the
/// changed items.
fn mutate_items<T, F: FnMut(&mut T)>(t: Vec<T>, f: F) -> (v: Vec<T>)
    requires
        forall|x: &mut T| call_requires(f, (x,)),
    ensures
        v@.len() == t@.len(),
        exists|rs: Seq<&mut T>|
            #![trigger rs.len()]
            rs.len() == t@.len() && forall|k: int|
                0 <= k < rs.len() ==> *rs[k] == t@[k] && mut_ref_future(rs[k]) == v@[k] && call_ensures(
                    f,
                    (#[trigger] rs[k],),
                    (),
                ),
{
    let mut g = f;
    mutate_prefix(&mut g, t)
}

/// Calls `f` on the items of `t` in order, first item first.
fn mutate_prefix<T, F: FnMut(&mut T)>(f: &mut F, t: Vec<T>) -> (v: Vec<T>)
    requires
        forall|x: &mut T| call_requires(*old(f), (x,)),
    ensures
        *final(f) == *old(f),
        v@.len() == t@.len(),
        exists|rs: Seq<&mut T>|
            #![trigger rs.len()]
            rs.len() == t@.len() && forall|k: int|
                0 <= k < rs.len() ==> *rs[k] == t@[k] && mut_ref_future(rs[k]) == v@[k] && call_ensures(
                    *old(f),
                    (#[trigger] rs[k],),
                    (),
                ),
{
    let ghost f0 = *f;
    let ghost ts = t@;
    let n = t.len();
    let mut rest = reversed(t);
    let mut v: Vec<T> = Vec::new();
    assert(Seq::<&mut T>::empty().len() == 0);
    while rest.len() > 0
        invariant
            *f == f0,
            forall|x: &mut T| call_requires(f0, (x,)),
            v@.len() + rest@.len() == n,
            ts.len() == n,
            forall|j: int| 0 <= j < rest@.len() ==> rest@[j] == ts[ts.len() - 1 - j],
            exists|rs: Seq<&mut T>|
                #![trigger rs.len()]
                rs.len() == v@.len() && forall|k: int|
                    0 <= k < rs.len() ==> *rs[k] == ts[k] && mut_ref_future(rs[k]) == v@[k] && call_ensures(
                        f0,
                        (#[trigger] rs[k],),
                        (),
                    ),
        decreases rest.len(),
    {
        let ghost rs1 = choose|rs: Seq<&mut T>|
            #![trigger rs.len()]
            rs.len() == v@.len() && forall|k: int|
                0 <= k < rs.len() ==> *rs[k] == ts[k] && mut_ref_future(rs[k]) == v@[k] && call_ensures(
                    f0,
                    (#[trigger] rs[k],),
                    (),
                );
        let x = rest.pop().unwrap();
        let y = mutate_one(f, x);
        let ghost q = choose|q: &mut T| *q == x && mut_ref_future(q) == y && #[trigger] call_ensures(f0, (q,), ());
        let ghost prev = v@;
        v.push(y);
        proof {
            let rs = rs1.push(q);
            assert forall|k: int| 0 <= k < rs.len() implies *rs[k] == ts[k] && mut_ref_future(rs[k]) == v@[k]
                && call_ensures(f0, (#[trigger] rs[k],), ()) by {
                if k < rs1.len() {
                    assert(rs[k] == rs1[k]);
                    assert(v@[k] == prev[k]);
                } else {
                    assert(rs[k] == q);
                }
            }
            assert(rs.len() == v@.len());
        }
    }
    v
}

/// Calls `f` on a mutable reference to `x` and returns what the call left there.
fn mutate_one<T, F: FnMut(&mut T)>(f: &mut F, x: T) -> (y: T)
    requires
        forall|r: &mut T| call_requires(*old(f), (r,)),
    ensures
        *final(f) == *old(f),
        exists|r: &mut T| *r == x && mut_ref_future(r) == y && #[trigger] call_ensures(*old(f), (r,), ()),
{
    let mut x = x;
    f(&mut x);
    x
}

} // verus!
