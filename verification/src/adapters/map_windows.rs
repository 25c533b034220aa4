//! Mapping each window of `N` adjacent items of a bulk.
use vstd::prelude::*;

use crate::bulk::Bulk;
use crate::util::vec_into_array;

verus! {

/// The number of windows of `n` adjacent items in a sequence of `len` items.
pub open spec fn window_count(len: nat, n: nat) -> nat {
    if len >= n {
        (len - n + 1) as nat
    } else {
        0
    }
}

/// `r` is a result of calling `f` on the window of `N` items of `t` that starts at `i`.
pub open spec fn maps_window<T, R, const N: usize, F: FnMut(&[T; N]) -> R>(f: F, t: Seq<T>, i: int, r: R) -> bool {
    exists|w: [T; N]| #![trigger call_ensures(f, (&w,), r)] w@ == t.subrange(i, i + N) && call_ensures(f, (&w,), r)
}

/// `s` holds the results of calling `f` on each window of `N` adjacent items of `t`, in
/// order.
pub open spec fn windowed<T, R, const N: usize, F: FnMut(&[T; N]) -> R>(f: F, t: Seq<T>, s: Seq<R>) -> bool {
    &&& s.len() == window_count(t.len(), N as nat)
    &&& forall|i: int| 0 <= i < s.len() ==> maps_window::<T, R, N, F>(f, t, i, #[trigger] s[i])
}

/// `f` can be called on each window of `N` adjacent items of `t`.
pub open spec fn accepts_windows<T, R, const N: usize, F: FnMut(&[T; N]) -> R>(f: F, t: Seq<T>) -> bool {
    forall|i: int, w: [T; N]|
        #![trigger t.subrange(i, i + N), w@]
        0 <= i && i + N <= t.len() && w@ == t.subrange(i, i + N) ==> call_requires(f, (&w,))
}

/// A bulk that calls `f` on each window of `N` adjacent items of `bulk`; it yields
/// `k - N + 1` items for a bulk of `k` items, and none when `k < N`.
pub struct MapWindows<B, F, const N: usize> {
    bulk: B,
    f: F,
}

impl<B, F, const N: usize> View for MapWindows<B, F, N> {
    type V = (B, F);

    closed spec fn view(&self) -> (B, F) {
        (self.bulk, self.f)
    }
}

impl<B: Bulk, R, F: FnMut(&[B::Item; N]) -> R, const N: usize> MapWindows<B, F, N> where B::Item: Copy {
    pub(crate) fn new(bulk: B, f: F) -> (r: Self)
        requires
            N > 0,
        ensures
            r@ == (bulk, f),
    {
        MapWindows { bulk, f }
    }
}

impl<B: Bulk, R, F: FnMut(&[B::Item; N]) -> R, const N: usize> Bulk for MapWindows<B, F, N> where
    B::Item: Copy,
 {
    type Item = R;

    open spec fn wf(&self) -> bool {
        &&& self@.0.wf()
        &&& N > 0
        &&& forall|t: Seq<B::Item>| #[trigger] self@.0.yields(t) ==> accepts_windows::<B::Item, R, N, F>(self@.1, t)
    }

    open spec fn spec_len(&self) -> nat {
        window_count(self@.0.spec_len(), N as nat)
    }

    open spec fn yields(&self, s: Seq<R>) -> bool {
        exists|t: Seq<B::Item>| #[trigger] self@.0.yields(t) && windowed::<B::Item, R, N, F>(self@.1, t, s)
    }

    proof fn lemma_yields_len(&self, s: Seq<R>) {
        let t = choose|t: Seq<B::Item>| #[trigger] self@.0.yields(t) && windowed::<B::Item, R, N, F>(self@.1, t, s);
        self@.0.lemma_yields_len(t);
    }

    fn len(&self) -> (n: usize) {
        assert(self@.0 == self.bulk);
        let len = self.bulk.len();
        if len >= N {
            len - N + 1
        } else {
            0
        }
    }

    fn collect_vec(self) -> (v: Vec<R>) {
        let ghost b = self;
        assert(b@.0 == self.bulk && b@.1 == self.f);
        let MapWindows { bulk, f } = self;
        let mut g = f;
        let t = bulk.collect_vec();
        let ghost ts = t@;
        assert(b@.0.yields(ts));
        let len = t.len();
        let mut v: Vec<R> = Vec::new();
        if len >= N {
            let count = len - N + 1;
            let mut i: usize = 0;
            while i < count
                invariant
                    g == b@.1,
                    accepts_windows::<B::Item, R, N, F>(b@.1, ts),
                    ts == t@,
                    len == ts.len(),
                    len >= N,
                    count == len - N + 1,
                    i <= count,
                    v@.len() == i,
                    forall|k: int| 0 <= k < i ==> maps_window::<B::Item, R, N, F>(b@.1, ts, k, #[trigger] v@[k]),
                decreases count - i,
            {
                let mut c: Vec<B::Item> = Vec::new();
                let mut j: usize = 0;
                while j < N
                    invariant
                        ts == t@,
                        len == ts.len(),
                        i + N <= ts.len(),
                        j <= N,
                        c@.len() == j,
                        forall|m: int| 0 <= m < j ==> #[trigger] c@[m] == ts[i + m],
                    decreases N - j,
                {
                    c.push(t[i + j]);
                    j = j + 1;
                }
                let w: [B::Item; N] = vec_into_array(c);
                assert(w@ =~= ts.subrange(i as int, i + N));
                assert(call_requires(b@.1, (&w,)));
                let y = g(&w);
                let ghost prev = v@;
                v.push(y);
                assert(call_ensures(b@.1, (&w,), v@[i as int]));
                assert(maps_window::<B::Item, R, N, F>(b@.1, ts, i as int, v@[i as int]));
                assert forall|k: int| 0 <= k < i + 1 implies maps_window::<B::Item, R, N, F>(
                    b@.1,
                    ts,
                    k,
                    #[trigger] v@[k],
                ) by {
                    if k < i {
                        assert(prev[k] == v@[k]);
                    }
                }
                i = i + 1;
            }
        }
        assert(b@.0.yields(ts));
        assert(windowed::<B::Item, R, N, F>(b@.1, ts, v@));
        assert(b.yields(v@));
        v
    }

    fn collect_rev_vec(self) -> (v: Vec<R>) {
        let w = self.collect_vec();
        let r = crate::util::reversed(w);
        assert(r@.reverse() =~= w@);
        r
    }
}

} // verus!
