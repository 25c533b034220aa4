//! The `Bulk` trait: a sequence of items that is always consumed whole.
use vstd::prelude::*;

use crate::from_bulk::{FromBulk, TryCollectArray};
use crate::into_bulk::IntoBulk;
use crate::util::{reversed, vec_into_array};

verus! {

/// `acc` holds the accumulators of folding `f` over `s` from `init`: `acc[0]` is `init` and
/// each step feeds the previous accumulator and the next item to `f`.
pub open spec fn fold_trace<B, T, F: FnMut(B, T) -> B>(f: F, init: B, s: Seq<T>, acc: Seq<B>) -> bool {
    &&& acc.len() == s.len() + 1
    &&& acc[0] == init
    &&& forall|i: int| 0 <= i < s.len() ==> call_ensures(f, (acc[i], s[i]), #[trigger] acc[i + 1])
}

/// `r` is a result of folding `f` over `s`, starting from `init`.
pub open spec fn fold_yields<B, T, F: FnMut(B, T) -> B>(f: F, init: B, s: Seq<T>, r: B) -> bool {
    exists|acc: Seq<B>| #[trigger] fold_trace(f, init, s, acc) && r == acc.last()
}

/// `r` is a result of folding the fallible `f` over `s` from `init`, stopping at the first
/// error: the first `k` steps succeed with accumulators `acc`, and then either every item
/// was used and `r` is the last accumulator, or the step on item `k` failed with `r`.
pub open spec fn try_fold_yields<B, T, E, F: FnMut(B, T) -> Result<B, E>>(
    f: F,
    init: B,
    s: Seq<T>,
    r: Result<B, E>,
) -> bool {
    exists|k: int, acc: Seq<B>|
        #![trigger try_fold_prefix(f, init, s, k, acc)]
        try_fold_prefix(f, init, s, k, acc) && if k == s.len() {
            r == Ok::<B, E>(acc.last())
        } else {
            r is Err && call_ensures(f, (acc.last(), s[k]), r)
        }
}

/// The first `k` steps of folding the fallible `f` over `s` from `init` succeed, with
/// accumulators `acc`.
pub open spec fn try_fold_prefix<B, T, E, F: FnMut(B, T) -> Result<B, E>>(
    f: F,
    init: B,
    s: Seq<T>,
    k: int,
    acc: Seq<B>,
) -> bool {
    &&& 0 <= k <= s.len()
    &&& acc.len() == k + 1
    &&& acc[0] == init
    &&& forall|i: int| 0 <= i < k ==> call_ensures(f, (acc[i], s[i]), Ok::<B, E>(#[trigger] acc[i + 1]))
}

/// `r` is a result of calling the fallible `f` on the items of `s` in order, stopping at
/// the first error: either every call succeeded and `r` is `Ok`, or the calls on the first
/// `k` items succeeded and the call on item `k` failed with `r`.
pub open spec fn try_each_yields<T, E, F: FnMut(T) -> Result<(), E>>(
    f: F,
    s: Seq<T>,
    r: Result<(), E>,
) -> bool {
    ||| r is Ok && forall|i: int| 0 <= i < s.len() ==> call_ensures(f, (#[trigger] s[i],), Ok::<(), E>(()))
    ||| exists|k: int|
        0 <= k < s.len() && r is Err && call_ensures(f, (s[k],), r) && #[trigger] try_each_ok_prefix(f, s, k)
}

/// The calls of `f` on the first `k` items of `s` succeed.
pub open spec fn try_each_ok_prefix<T, E, F: FnMut(T) -> Result<(), E>>(f: F, s: Seq<T>, k: int) -> bool {
    forall|i: int| 0 <= i < k ==> call_ensures(f, (#[trigger] s[i],), Ok::<(), E>(()))
}

/// The smaller of `a` and `b`.
pub open spec fn min_len(a: int, b: int) -> int {
    if a < b {
        a
    } else {
        b
    }
}

/// The first item of `s`, if any.
pub open spec fn seq_first<T>(s: Seq<T>) -> Option<T> {
    if s.len() == 0 {
        None
    } else {
        Some(s[0])
    }
}

/// The last item of `s`, if any.
pub open spec fn seq_last<T>(s: Seq<T>) -> Option<T> {
    if s.len() == 0 {
        None
    } else {
        Some(s.last())
    }
}

/// The item of `s` at index `n`, if `n` is in bounds.
pub open spec fn seq_nth<T>(s: Seq<T>, n: int) -> Option<T> {
    if 0 <= n < s.len() {
        Some(s[n])
    } else {
        None
    }
}

/// `r` is a result of reducing `s` with `f`: `None` when `s` is empty, else folding `f`
/// over the rest of `s` starting from its first item.
pub open spec fn reduce_yields<T, F: FnMut(T, T) -> T>(f: F, s: Seq<T>, r: Option<T>) -> bool {
    if s.len() == 0 {
        r is None
    } else {
        r matches Some(x) && fold_yields(f, s[0], s.drop_first(), x)
    }
}

/// `r` is a result of reducing `s` with the fallible `f`.
pub open spec fn try_reduce_yields<T, E, F: FnMut(T, T) -> Result<T, E>>(
    f: F,
    s: Seq<T>,
    r: Result<Option<T>, E>,
) -> bool {
    if s.len() == 0 {
        r == Ok::<Option<T>, E>(None)
    } else {
        match r {
            Ok(Some(x)) => try_fold_yields(f, s[0], s.drop_first(), Ok::<T, E>(x)),
            Ok(None) => false,
            Err(e) => try_fold_yields(f, s[0], s.drop_first(), Err::<T, E>(e)),
        }
    }
}

/// `f` can be called on each item of `s`.
pub open spec fn accepts_each<T, U, F: FnMut(T) -> U>(f: F, s: Seq<T>) -> bool {
    forall|i: int| 0 <= i < s.len() ==> call_requires(f, (s[i],))
}

/// `f` can be called with any accumulator and each item of `s`.
pub open spec fn accepts_each_with<A, T, U, F: FnMut(A, T) -> U>(f: F, s: Seq<T>) -> bool {
    forall|a: A, i: int| 0 <= i < s.len() ==> call_requires(f, (a, s[i]))
}

/// `f` was called on each item of `s`: each call could return `()`.
pub open spec fn each_called<T, F: FnMut(T)>(f: F, s: Seq<T>) -> bool {
    forall|i: int| 0 <= i < s.len() ==> call_ensures(f, (#[trigger] s[i],), ())
}

/// Calls `f` on the items of `v` in order.
pub fn for_each_item<T, F: FnMut(T)>(v: Vec<T>, f: F)
    requires
        accepts_each(f, v@),
    ensures
        each_called(f, v@),
{
    let mut g = f;
    let ghost f0 = f;
    let ghost s = v@;
    let n = v.len();
    let mut rest = reversed(v);
    let mut i: usize = 0;
    while rest.len() > 0
        invariant
            g == f0,
            f0 == f,
            s == v@,
            s.len() == n,
            i + rest@.len() == n,
            forall|j: int| 0 <= j < rest@.len() ==> rest@[j] == s[s.len() - 1 - j],
            accepts_each(f0, s),
            forall|k: int| 0 <= k < i ==> call_ensures(f0, (#[trigger] s[k],), ()),
        decreases rest.len(),
    {
        let x = rest.pop().unwrap();
        assert(x == s[i as int]);
        let u = g(x);
        assert(u == ());
        i = i + 1;
    }
}

/// Calls the fallible `f` on the items of `v` in order, stopping at the first error.
pub fn try_for_each_item<T, E, F: FnMut(T) -> Result<(), E>>(v: Vec<T>, f: F) -> (r: Result<(), E>)
    requires
        accepts_each(f, v@),
    ensures
        try_each_yields(f, v@, r),
{
    let mut g = f;
    let ghost f0 = f;
    let ghost s = v@;
    let n = v.len();
    let mut rest = reversed(v);
    let mut i: usize = 0;
    while rest.len() > 0
        invariant
            g == f0,
            f0 == f,
            accepts_each(f0, s),
            s == v@,
            s.len() == n,
            i + rest@.len() == n,
            forall|j: int| 0 <= j < rest@.len() ==> rest@[j] == s[s.len() - 1 - j],
            try_each_ok_prefix(f0, s, i as int),
        decreases rest.len(),
    {
        let x = rest.pop().unwrap();
        assert(x == s[i as int]);
        let y = g(x);
        match y {
            Ok(u) => {
                assert(u == ());
                assert(y == Ok::<(), E>(()));
            },
            Err(e) => {
                proof {
                    assert(y == Err::<(), E>(e));
                    assert(try_each_ok_prefix(f0, s, i as int));
                }
                return Err(e);
            },
        }
        i = i + 1;
    }
    Ok(())
}

/// Folds `f` over the items of `v` in order, starting from `init`.
pub fn fold_items<T, B, F: FnMut(B, T) -> B>(v: Vec<T>, init: B, f: F) -> (r: B)
    requires
        accepts_each_with(f, v@),
    ensures
        fold_yields(f, init, v@, r),
{
    let mut g = f;
    let ghost f0 = f;
    let ghost s = v@;
    let n = v.len();
    let mut rest = reversed(v);
    let mut acc = init;
    let ghost mut trace = seq![init];
    let mut i: usize = 0;
    while rest.len() > 0
        invariant
            g == f0,
            f0 == f,
            accepts_each_with(f0, s),
            s == v@,
            s.len() == n,
            i + rest@.len() == n,
            forall|j: int| 0 <= j < rest@.len() ==> rest@[j] == s[s.len() - 1 - j],
            fold_trace(f0, init, s.take(i as int), trace),
            acc == trace.last(),
        decreases rest.len(),
    {
        let x = rest.pop().unwrap();
        acc = g(acc, x);
        proof {
            trace = trace.push(acc);
            assert(s.take(i + 1) =~= s.take(i as int).push(x));
        }
        i = i + 1;
    }
    proof {
        assert(s.take(s.len() as int) =~= s);
    }
    acc
}

/// Folds the fallible `f` over the items of `v` in order from `init`, stopping at the
/// first error.
pub fn try_fold_items<T, B, E, F: FnMut(B, T) -> Result<B, E>>(v: Vec<T>, init: B, f: F) -> (r: Result<B, E>)
    requires
        accepts_each_with(f, v@),
    ensures
        try_fold_yields(f, init, v@, r),
{
    let mut g = f;
    let ghost f0 = f;
    let ghost s = v@;
    let n = v.len();
    let mut rest = reversed(v);
    let mut acc = init;
    let ghost mut trace = seq![init];
    let mut i: usize = 0;
    while rest.len() > 0
        invariant
            g == f0,
            f0 == f,
            accepts_each_with(f0, s),
            s == v@,
            s.len() == n,
            i + rest@.len() == n,
            forall|j: int| 0 <= j < rest@.len() ==> rest@[j] == s[s.len() - 1 - j],
            try_fold_prefix(f0, init, s, i as int, trace),
            acc == trace.last(),
        decreases rest.len(),
    {
        let x = rest.pop().unwrap();
        assert(x == s[i as int]);
        let ghost prev = acc;
        match g(acc, x) {
            Ok(a) => {
                acc = a;
                proof {
                    trace = trace.push(acc);
                }
            },
            Err(e) => {
                proof {
                    assert(try_fold_prefix(f0, init, s, i as int, trace));
                }
                return Err(e);
            },
        }
        i = i + 1;
    }
    proof {
        assert(try_fold_prefix(f0, init, s, s.len() as int, trace));
    }
    Ok(acc)
}

/// A collection of items that is consumed whole, whose length is known before it runs.
///
/// Every consumer first evaluates the whole bulk into its items (`collect_vec`), running
/// the closures of all adapters on every item, and only then hands the items on; so no
/// closure of a consumer runs before all upstream closures have run, and a consumer that
/// stops early does not spare the upstream work. A consumer that walks the bulk backwards
/// (`rev`, `rev_for_each`) evaluates it through `collect_rev_vec`, in which the closures of
/// `map`, `inspect`, `mutate` and `flat_map` run on the items last item first, also through
/// `chain`, `zip`, `enumerate`, `copied`, `cloned`, `take`, `skip`, `step_by`, `flatten` and
/// `rev`, while `repeat_n_with` still calls its closure once per item in turn; the other
/// adapters evaluate forwards and reverse the result.
///
/// `yields` says which sequences of items consuming the bulk can produce (a bulk that
/// calls closures may allow several), `spec_len` is the number of items, and `wf` is
/// what the bulk needs to run (for instance, that its closures accept every item).
pub trait Bulk: Sized {
    type Item;

    spec fn wf(&self) -> bool;

    spec fn spec_len(&self) -> nat;

    spec fn yields(&self, s: Seq<Self::Item>) -> bool;

    /// Every sequence the bulk yields has exactly its length.
    proof fn lemma_yields_len(&self, s: Seq<Self::Item>)
        requires
            self.wf(),
            self.yields(s),
        ensures
            s.len() == self.spec_len(),
    ;

    /// Returns the exact length of the bulk.
    fn len(&self) -> (n: usize)
        requires
            self.wf(),
        ensures
            n == self.spec_len(),
    ;

    /// Consumes the bulk, returning its items in order.
    fn collect_vec(self) -> (v: Vec<Self::Item>)
        requires
            self.wf(),
        ensures
            self.yields(v@),
    ;

    /// Consumes the bulk from its last item to its first, returning the items in the order
    /// in which they were reached. The closures of adapters that compute items run in that
    /// order too, as they would for a consumer that walks the bulk backwards.
    fn collect_rev_vec(self) -> (v: Vec<Self::Item>)
        requires
            self.wf(),
        ensures
            self.yields(v@.reverse()),
    {
        let v = self.collect_vec();
        let r = reversed(v);
        assert(r@.reverse() =~= v@);
        r
    }

    /// Calls `f` on each item, in order. The whole bulk, upstream closures included, is
    /// evaluated before `f` runs.
    fn for_each<F: FnMut(Self::Item)>(self, f: F)
        requires
            self.wf(),
            forall|s: Seq<Self::Item>| #[trigger] self.yields(s) ==> accepts_each(f, s),
        ensures
            exists|s: Seq<Self::Item>| #[trigger] self.yields(s) && each_called(f, s),
    {
        let ghost b = self;
        let v = self.collect_vec();
        let ghost s = v@;
        for_each_item(v, f);
        assert(b.yields(s));
    }

    /// Calls the fallible `f` on each item in order, stopping at the first error and
    /// returning it. The whole bulk, upstream closures included, is evaluated before `f`
    /// runs, so stopping early does not spare the work of earlier adapters.
    fn try_for_each<E, F: FnMut(Self::Item) -> Result<(), E>>(self, f: F) -> (r: Result<(), E>)
        requires
            self.wf(),
            forall|s: Seq<Self::Item>| #[trigger] self.yields(s) ==> accepts_each(f, s),
        ensures
            exists|s: Seq<Self::Item>| #[trigger] self.yields(s) && try_each_yields(f, s, r),
    {
        let ghost b = self;
        let v = self.collect_vec();
        let ghost s = v@;
        let r = try_for_each_item(v, f);
        assert(b.yields(s));
        r
    }

    /// Folds every item into an accumulator with `f`, starting from `init`.
    fn fold<B, F: FnMut(B, Self::Item) -> B>(self, init: B, f: F) -> (r: B)
        requires
            self.wf(),
            forall|s: Seq<Self::Item>| #[trigger] self.yields(s) ==> accepts_each_with(f, s),
        ensures
            exists|s: Seq<Self::Item>| #[trigger] self.yields(s) && fold_yields(f, init, s, r),
    {
        let ghost b = self;
        let v = self.collect_vec();
        let ghost s = v@;
        let r = fold_items(v, init, f);
        assert(b.yields(s));
        r
    }

    /// Folds every item into an accumulator with the fallible `f`, starting from `init`
    /// and stopping at the first error.
    fn try_fold<B, E, F: FnMut(B, Self::Item) -> Result<B, E>>(self, init: B, f: F) -> (r: Result<B, E>)
        requires
            self.wf(),
            forall|s: Seq<Self::Item>| #[trigger] self.yields(s) ==> accepts_each_with(f, s),
        ensures
            exists|s: Seq<Self::Item>| #[trigger] self.yields(s) && try_fold_yields(f, init, s, r),
    {
        let ghost b = self;
        let v = self.collect_vec();
        let ghost s = v@;
        let r = try_fold_items(v, init, f);
        assert(b.yields(s));
        r
    }

    /// Reduces the items to one by repeatedly applying `f`, starting from the first item;
    /// `None` if the bulk is empty.
    fn reduce<F: FnMut(Self::Item, Self::Item) -> Self::Item>(self, f: F) -> (r: Option<Self::Item>)
        requires
            self.wf(),
            forall|s: Seq<Self::Item>| #[trigger] self.yields(s) ==> accepts_each_with(f, s),
        ensures
            exists|s: Seq<Self::Item>| #[trigger] self.yields(s) && reduce_yields(f, s, r),
    {
        let ghost b = self;
        let v = self.collect_vec();
        let ghost s = v@;
        let mut rest = reversed(v);
        match rest.pop() {
            None => {
                assert(b.yields(s));
                None
            },
            Some(first) => {
                let tail = reversed(rest);
                proof {
                    assert(s.reverse().last() == s[0]);
                    assert(tail@ =~= s.drop_first());
                    assert(b.yields(s));
                }
                Some(fold_items(tail, first, f))
            },
        }
    }

    /// Reduces the items to one by repeatedly applying the fallible `f`, stopping at the
    /// first error; `Ok(None)` if the bulk is empty.
    fn try_reduce<E, F: FnMut(Self::Item, Self::Item) -> Result<Self::Item, E>>(self, f: F) -> (r: Result<
        Option<Self::Item>,
        E,
    >)
        requires
            self.wf(),
            forall|s: Seq<Self::Item>| #[trigger] self.yields(s) ==> accepts_each_with(f, s),
        ensures
            exists|s: Seq<Self::Item>| #[trigger] self.yields(s) && try_reduce_yields(f, s, r),
    {
        let ghost b = self;
        let v = self.collect_vec();
        let ghost s = v@;
        let mut rest = reversed(v);
        match rest.pop() {
            None => {
                assert(b.yields(s));
                Ok(None)
            },
            Some(first) => {
                let tail = reversed(rest);
                proof {
                    assert(s.reverse().last() == s[0]);
                    assert(tail@ =~= s.drop_first());
                    assert(b.yields(s));
                }
                match try_fold_items(tail, first, f) {
                    Ok(x) => Ok(Some(x)),
                    Err(e) => Err(e),
                }
            },
        }
    }

    /// Collects the items into a collection that can hold this many items.
    fn collect<C: FromBulk<Self::Item>>(self) -> (c: C)
        requires
            self.wf(),
            C::accepts(self.spec_len()),
        ensures
            exists|s: Seq<Self::Item>| #[trigger] self.yields(s) && C::collected(s, c),
    {
        let ghost b = self;
        let v = self.collect_vec();
        let ghost s = v@;
        proof {
            b.lemma_yields_len(s);
        }
        let c = C::from_vec(v);
        assert(b.yields(s));
        c
    }

    /// Collects the items into an array; the bulk must have exactly `N` items.
    fn collect_array<const N: usize>(self) -> (a: [Self::Item; N])
        requires
            self.wf(),
            self.spec_len() == N,
        ensures
            self.yields(a@),
    {
        let ghost b = self;
        let v = self.collect_vec();
        proof {
            b.lemma_yields_len(v@);
        }
        vec_into_array(v)
    }

    /// Collects the values inside the items, each an `Option` or a `Result`, into an array
    /// of exactly this many values: `None`, or the first error, if an item holds none.
    fn try_collect_array<const N: usize>(self) -> (r: <Self::Item as TryCollectArray<N>>::Output) where
        Self::Item: TryCollectArray<N>,

        requires
            self.wf(),
            self.spec_len() == N,
        ensures
            exists|s: Seq<Self::Item>| #[trigger] self.yields(s) && <Self::Item as TryCollectArray<N>>::try_collected(s, r),
    {
        let ghost b = self;
        let v = self.collect_vec();
        let ghost s = v@;
        proof {
            b.lemma_yields_len(s);
        }
        let r = <Self::Item as TryCollectArray<N>>::try_collect_vec(v);
        assert(b.yields(s));
        r
    }

    /// Splits the bulk into the first `n` items (all of them, if there are fewer) and
    /// the rest.
    fn split_at(self, n: usize) -> (r: (crate::vec::IntoBulk<Self::Item>, crate::vec::IntoBulk<Self::Item>))
        requires
            self.wf(),
        ensures
            exists|s: Seq<Self::Item>|
                #[trigger] self.yields(s) && r.0@ == s.take(min_len(n as int, s.len() as int)) && r.1@
                    == s.skip(min_len(n as int, s.len() as int)),
    {
        let ghost b = self;
        let mut v = self.collect_vec();
        let ghost s = v@;
        proof {
            assert(b.yields(s));
        }
        if n < v.len() {
            let right = v.split_off(n);
            assert(v@ =~= s.take(n as int));
            assert(right@ =~= s.skip(n as int));
            (crate::vec::IntoBulk::new(v), crate::vec::IntoBulk::new(right))
        } else {
            assert(v@ =~= s.take(s.len() as int));
            assert(s.skip(s.len() as int) =~= Seq::<Self::Item>::empty());
            (crate::vec::IntoBulk::new(v), crate::vec::IntoBulk::new(Vec::new()))
        }
    }

    /// Returns `true` if the bulk yields no items.
    fn is_empty(&self) -> (b: bool)
        requires
            self.wf(),
        ensures
            b == (self.spec_len() == 0),
    {
        self.len() == 0
    }

    /// Returns the first item, discarding the rest; `None` if the bulk is empty.
    fn first(self) -> (r: Option<Self::Item>)
        requires
            self.wf(),
        ensures
            exists|s: Seq<Self::Item>| #[trigger] self.yields(s) && r == seq_first(s),
    {
        let ghost b = self;
        let v = self.collect_vec();
        let ghost s = v@;
        let mut rev = reversed(v);
        let r = rev.pop();
        proof {
            assert(b.yields(s));
            if s.len() > 0 {
                assert(s.reverse().last() == s[0]);
            }
        }
        r
    }

    /// Returns the last item, discarding the rest; `None` if the bulk is empty.
    fn last(self) -> (r: Option<Self::Item>)
        requires
            self.wf(),
        ensures
            exists|s: Seq<Self::Item>| #[trigger] self.yields(s) && r == seq_last(s),
    {
        let ghost b = self;
        let mut v = self.collect_vec();
        let ghost s = v@;
        let r = v.pop();
        proof {
            assert(b.yields(s));
        }
        r
    }

    /// Returns the item at index `n`, discarding the rest; `None` if `n` is out of bounds.
    fn nth(self, n: usize) -> (r: Option<Self::Item>)
        requires
            self.wf(),
        ensures
            exists|s: Seq<Self::Item>| #[trigger] self.yields(s) && r == seq_nth(s, n as int),
    {
        let ghost b = self;
        let mut v = self.collect_vec();
        let ghost s = v@;
        proof {
            assert(b.yields(s));
        }
        if n < v.len() {
            let mut tail = v.split_off(n);
            let ghost t = tail@;
            assert(t == s.subrange(n as int, s.len() as int));
            let mut rev = reversed(tail);
            let r = rev.pop();
            proof {
                assert(t.reverse().last() == t[0]);
            }
            r
        } else {
            None
        }
    }
}

} // verus!
