//! Properties that relate several bulks and operations.
use vstd::prelude::*;

use crate::adapters::array_chunks_with_remainder::{chunk_remainder, chunked};
use crate::adapters::chain::Chain;
use crate::adapters::enumerate::{enumerated, Enumerate};
use crate::adapters::flat_map::FlatMap;
use crate::adapters::array_chunks::ArrayChunks;
use crate::adapters::flatten::{flat, lemma_flat, Flatten};
use crate::adapters::inspect::Inspect;
use crate::adapters::intersperse::Intersperse;
use crate::adapters::map_windows::MapWindows;
use crate::adapters::map::{mapped, MapBulk};
use crate::adapters::mutate::Mutate;
use crate::adapters::rev::Rev;
use crate::adapters::zip::{zipped, Zip};
use crate::bulk::{try_each_ok_prefix, try_each_yields, Bulk};
use crate::util::swapped;

verus! {

/// Reversing a bulk twice gives a bulk of the same length that yields exactly what the
/// bulk itself yields.
pub proof fn law_rev_rev<B: Bulk>(r: Rev<Rev<B>>)
    ensures
        r.spec_len() == r@@.spec_len(),
        forall|s: Seq<B::Item>| r.yields(s) <==> r@@.yields(s),
{
    assert forall|s: Seq<B::Item>| r.yields(s) <==> r@@.yields(s) by {
        if r.yields(s) {
            let t = choose|t: Seq<B::Item>| #[trigger] r@.yields(t) && s == t.reverse();
            let u = choose|u: Seq<B::Item>| #[trigger] r@@.yields(u) && t == u.reverse();
            assert(s =~= u);
        }
        if r@@.yields(s) {
            assert(s.reverse().reverse() =~= s);
            assert(r@.yields(s.reverse()));
        }
    }
}

/// What a chain of two bulks yields, split at the length of the first bulk, is what the
/// first bulk yields followed by what the second one yields.
pub proof fn law_chain_split<A: Bulk, B: Bulk<Item = A::Item>>(c: Chain<A, B>, s: Seq<A::Item>)
    requires
        c.wf(),
        c.yields(s),
    ensures
        exists|x: Seq<A::Item>, y: Seq<A::Item>|
            #![trigger c@.0.yields(x), c@.1.yields(y)]
            c@.0.yields(x) && c@.1.yields(y) && s.take(c@.0.spec_len() as int) == x && s.skip(
                c@.0.spec_len() as int,
            ) == y,
{
    let (x, y) = choose|x: Seq<A::Item>, y: Seq<A::Item>|
        #![trigger c@.0.yields(x), c@.1.yields(y)]
        c@.0.yields(x) && c@.1.yields(y) && s == x + y;
    c@.0.lemma_yields_len(x);
    assert(s.take(x.len() as int) =~= x);
    assert(s.skip(x.len() as int) =~= y);
}

/// Splitting a sequence at any point and joining the two parts gives the sequence back.
pub proof fn law_split_join<T>(s: Seq<T>, n: int)
    requires
        0 <= n <= s.len(),
    ensures
        s.take(n) + s.skip(n) == s,
{
    assert(s.take(n) + s.skip(n) =~= s);
}

/// The whole chunks of `N` items of `t`, flattened, followed by the items left over after
/// them, are `t` again.
pub proof fn law_chunks_reassemble<T, const N: usize>(t: Seq<T>, c: Seq<[T; N]>)
    requires
        N > 0,
        chunked::<T, N>(t, c),
    ensures
        flat(c) + chunk_remainder(t, N as nat) == t,
{
    let n = N as int;
    let q = c.len() as int;
    lemma_flat(c);
    assert(0 <= q * n <= t.len()) by (nonlinear_arith)
        requires
            n > 0,
            q == (t.len() as int) / n,
            t.len() >= 0,
    ;
    assert forall|i: int| 0 <= i < q * n implies #[trigger] flat(c)[i] == t[i] by {
        let k = i / n;
        let j = i % n;
        assert(i == k * n + j && 0 <= j < n && 0 <= k < q) by (nonlinear_arith)
            requires
                n > 0,
                0 <= i < q * n,
                k == i / n,
                j == i % n,
        ;
        assert(c[k]@ == t.subrange(k * n, k * n + n));
        assert(k * n + n <= q * n) by (nonlinear_arith)
            requires
                0 <= k < q,
                n > 0,
        ;
    }
    assert(flat(c) + chunk_remainder(t, N as nat) =~= t);
}

/// The chunks of `N` items that a sequence is cut into are fixed by the sequence. The chunk
/// consumers of `array_chunks` (`for_each_with_remainder`, `try_for_each_with_remainder`,
/// `collect_with_remainder`) each state the chunks they pass as chunks of the items the bulk
/// yields, so on the same items they all see the same chunks, in the same order, and the
/// same items left over.
pub proof fn law_chunks_determined<T, const N: usize>(t: Seq<T>, c1: Seq<[T; N]>, c2: Seq<[T; N]>)
    requires
        chunked::<T, N>(t, c1),
        chunked::<T, N>(t, c2),
    ensures
        c1 == c2,
{
    broadcast use vstd::array::group_array_axioms;

    assert forall|k: int| 0 <= k < c1.len() implies c1[k] == c2[k] by {
        assert(c1[k]@ == t.subrange(k * N, k * N + N));
        assert(c2[k]@ == t.subrange(k * N, k * N + N));
        assert(c1[k] =~= c2[k]);
    }
    assert(c1 =~= c2);
}

/// `mutate(f)` gives the items of the bulk, in order, each changed by `f`: where every call
/// of `f` turns the item it is given into `g` of it, what `collect_vec` returns is the
/// bulk's items mapped by `g`.
pub proof fn law_mutate_applies_f<B: Bulk, F: FnMut(&mut B::Item)>(
    m: Mutate<B, F>,
    v: Vec<B::Item>,
    g: spec_fn(B::Item) -> B::Item,
)
    requires
        call_ensures(<Mutate<B, F> as Bulk>::collect_vec, (m,), v),
        forall|r: &mut B::Item| #[trigger] call_ensures(m@.1, (r,), ()) ==> mut_ref_future(r) == g(*r),
    ensures
        exists|t: Seq<B::Item>| #[trigger] m@.0.yields(t) && v@ == t.map_values(g),
{
    let (t, rs) = choose|t: Seq<B::Item>, rs: Seq<&mut B::Item>|
        #![trigger m@.0.yields(t), rs.len()]
        m@.0.yields(t) && rs.len() == t.len() && v@.len() == t.len() && forall|k: int|
            0 <= k < rs.len() ==> *rs[k] == t[k] && mut_ref_future(rs[k]) == v@[k] && call_ensures(
                m@.1,
                (#[trigger] rs[k],),
                (),
            );
    assert forall|k: int| 0 <= k < v@.len() implies v@[k] == t.map_values(g)[k] by {
        assert(call_ensures(m@.1, (rs[k],), ()));
    }
    assert(v@ =~= t.map_values(g));
}

/// Walking `mutate(f)` backwards gives the items of the bulk, last first, each changed by
/// `f`: where every call of `f` turns the item it is given into `g` of it, what
/// `collect_rev_vec` returns is the bulk's items mapped by `g`, in reverse order.
pub proof fn law_mutate_rev_applies_f<B: Bulk, F: FnMut(&mut B::Item)>(
    m: Mutate<B, F>,
    v: Vec<B::Item>,
    g: spec_fn(B::Item) -> B::Item,
)
    requires
        call_ensures(<Mutate<B, F> as Bulk>::collect_rev_vec, (m,), v),
        forall|r: &mut B::Item| #[trigger] call_ensures(m@.1, (r,), ()) ==> mut_ref_future(r) == g(*r),
    ensures
        exists|t: Seq<B::Item>| #[trigger] m@.0.yields(t) && v@ == t.map_values(g).reverse(),
{
    let (t, rs) = choose|t: Seq<B::Item>, rs: Seq<&mut B::Item>|
        #![trigger m@.0.yields(t), rs.len()]
        m@.0.yields(t) && rs.len() == t.len() && v@.len() == t.len() && forall|k: int|
            0 <= k < rs.len() ==> *rs[k] == t[t.len() - 1 - k] && mut_ref_future(rs[k]) == v@[k]
                && call_ensures(m@.1, (#[trigger] rs[k],), ());
    assert forall|k: int| 0 <= k < v@.len() implies v@[k] == t.map_values(g).reverse()[k] by {
        assert(call_ensures(m@.1, (rs[k],), ()));
    }
    assert(v@ =~= t.map_values(g).reverse());
}

/// A bulk built from an array yields the array's items, so what it collects back into an
/// array is the array itself.
pub proof fn law_array_round_trip<T, const N: usize>(a: [T; N], b: crate::array::IntoBulk<T, N>, r: [T; N])
    requires
        crate::into_bulk::IntoBulk::converts(&a, b),
        b.yields(r@),
    ensures
        r == a,
{
    broadcast use vstd::array::group_array_axioms;
    assert(r@ =~= a@);
}

/// Enumerating a bulk yields exactly what zipping the indices `0..n` with it yields, where
/// `n` is its length.
pub proof fn law_enumerate_zip<B: Bulk>(e: Enumerate<B>, z: Zip<crate::range::IntoBulk<usize>, B>)
    requires
        e.wf(),
        z@.1 == e@,
        z@.0@ == (0usize, e@.spec_len() as usize, false),
    ensures
        forall|s: Seq<(usize, B::Item)>| e.yields(s) <==> z.yields(s),
{
    let n = e@.spec_len();
    assert forall|s: Seq<(usize, B::Item)>| e.yields(s) <==> z.yields(s) by {
        if e.yields(s) {
            let t = choose|t: Seq<B::Item>| #[trigger] e@.yields(t) && enumerated(0, t, s);
            e@.lemma_yields_len(t);
            let x = Seq::new(n, |i: int| i as usize);
            assert(z@.0.yields(x));
            assert(zipped(x, t, s));
        }
        if z.yields(s) {
            let (x, y) = choose|x: Seq<usize>, y: Seq<B::Item>|
                #![trigger z@.0.yields(x), z@.1.yields(y)]
                z@.0.yields(x) && z@.1.yields(y) && zipped(x, y, s);
            e@.lemma_yields_len(y);
            assert(enumerated(0, y, s)) by {
                assert forall|i: int| 0 <= i < y.len() implies #[trigger] s[i] == ((0 + i) as usize, y[i]) by {
                    assert(x[i] as int == i);
                }
            }
        }
    }
}

/// Mapping each item to an array and flattening, in one adapter, yields exactly what
/// mapping and then flattening yields.
pub proof fn law_flat_map_flatten<B: Bulk, U, const M: usize, F: FnMut(B::Item) -> [U; M]>(
    fm: FlatMap<B, F>,
    fl: Flatten<MapBulk<B, F>>,
)
    requires
        fl@@ == fm@,
    ensures
        fm.spec_len() == fl.spec_len(),
        forall|s: Seq<U>| fm.yields(s) <==> fl.yields(s),
{
    assert forall|s: Seq<U>| fm.yields(s) <==> fl.yields(s) by {
        if fm.yields(s) {
            let (t, a) = choose|t: Seq<B::Item>, a: Seq<[U; M]>|
                #![trigger fm@.0.yields(t), mapped(fm@.1, t, a)]
                fm@.0.yields(t) && mapped(fm@.1, t, a) && s == flat(a);
            assert(fl@.yields(a));
        }
        if fl.yields(s) {
            let a = choose|a: Seq<[U; M]>| #[trigger] fl@.yields(a) && s == flat(a);
            let t = choose|t: Seq<B::Item>| #[trigger] fl@@.0.yields(t) && mapped(fl@@.1, t, a);
            assert(fm@.0.yields(t) && mapped(fm@.1, t, a));
        }
    }
}

/// Swapping the same two items twice leaves a sequence unchanged.
pub proof fn law_swap_twice<T>(s: Seq<T>, a: int, b: int)
    requires
        0 <= a < s.len(),
        0 <= b < s.len(),
    ensures
        swapped(swapped(s, a, b), a, b) == s,
{
    assert(swapped(swapped(s, a, b), a, b) =~= s);
}

/// `map`, `enumerate`, `rev` and `inspect` keep the length of a bulk, and so does `zip`
/// of two bulks of the same length: whatever the adapted bulk yields has the length of the
/// bulk it was made from.
pub proof fn law_length_preserving<B: Bulk, C: Bulk, U, F: FnMut(B::Item) -> U, G: FnMut(&B::Item)>(
    m: MapBulk<B, F>,
    e: Enumerate<B>,
    r: Rev<B>,
    i: Inspect<B, G>,
    z: Zip<B, C>,
)
    requires
        m.wf(),
        e.wf(),
        r.wf(),
        i.wf(),
        z.wf(),
        z@.0.spec_len() == z@.1.spec_len(),
    ensures
        forall|s: Seq<U>| m.yields(s) ==> s.len() == m@.0.spec_len(),
        forall|s: Seq<(usize, B::Item)>| e.yields(s) ==> s.len() == e@.spec_len(),
        forall|s: Seq<B::Item>| r.yields(s) ==> s.len() == r@.spec_len(),
        forall|s: Seq<B::Item>| i.yields(s) ==> s.len() == i@.0.spec_len(),
        forall|s: Seq<(B::Item, C::Item)>| z.yields(s) ==> s.len() == z@.0.spec_len(),
{
    assert forall|s: Seq<U>| m.yields(s) implies s.len() == m@.0.spec_len() by {
        m.lemma_yields_len(s);
    }
    assert forall|s: Seq<(usize, B::Item)>| e.yields(s) implies s.len() == e@.spec_len() by {
        e.lemma_yields_len(s);
    }
    assert forall|s: Seq<B::Item>| r.yields(s) implies s.len() == r@.spec_len() by {
        r.lemma_yields_len(s);
    }
    assert forall|s: Seq<B::Item>| i.yields(s) implies s.len() == i@.0.spec_len() by {
        i.lemma_yields_len(s);
    }
    assert forall|s: Seq<(B::Item, C::Item)>| z.yields(s) implies s.len() == z@.0.spec_len() by {
        z.lemma_yields_len(s);
    }
}

/// The adapters that change the length of a bulk change it in a way fixed in advance: a
/// bulk of `n` items gives `n * M` items through `flat_map` to arrays of `M`, `2 * n - 1`
/// (none for none) through `intersperse`, `n / N` through `array_chunks::<N>`, and
/// `n - N + 1` (none when `n < N`) through `map_windows` over windows of `N`.
pub proof fn law_lengths_predetermined<
    B: Bulk,
    U,
    R,
    const M: usize,
    const N: usize,
    F: FnMut(B::Item) -> [U; M],
    W: FnMut(&[B::Item; N]) -> R,
>(fm: FlatMap<B, F>, it: Intersperse<B>, ac: ArrayChunks<B, N>, mw: MapWindows<B, W, N>)
    where
        B::Item: Copy,
    requires
        fm.wf(),
        it.wf(),
        ac.wf(),
        mw.wf(),
    ensures
        forall|s: Seq<U>| fm.yields(s) ==> s.len() == fm@.0.spec_len() * M,
        forall|s: Seq<B::Item>| it.yields(s) ==> s.len() == (if it@.0.spec_len() == 0 {
            0
        } else {
            2 * it@.0.spec_len() - 1
        }),
        forall|s: Seq<[B::Item; N]>| ac.yields(s) ==> s.len() == ac@.spec_len() / (N as nat),
        forall|s: Seq<R>| mw.yields(s) ==> s.len() == (if mw@.0.spec_len() >= N {
            mw@.0.spec_len() - N + 1
        } else {
            0
        }),
{
    assert forall|s: Seq<U>| fm.yields(s) implies s.len() == fm@.0.spec_len() * M by {
        fm.lemma_yields_len(s);
    }
    assert forall|s: Seq<B::Item>| it.yields(s) implies s.len() == (if it@.0.spec_len() == 0 {
        0
    } else {
        2 * it@.0.spec_len() - 1
    }) by {
        it.lemma_yields_len(s);
    }
    assert forall|s: Seq<[B::Item; N]>| ac.yields(s) implies s.len() == ac@.spec_len() / (N as nat) by {
        ac.lemma_yields_len(s);
    }
    assert forall|s: Seq<R>| mw.yields(s) implies s.len() == (if mw@.0.spec_len() >= N {
        mw@.0.spec_len() - N + 1
    } else {
        0
    }) by {
        mw.lemma_yields_len(s);
    }
}

/// Calling a fallible `f` on what a chain yields is calling it on what the first bulk
/// yields and then on what the second one yields: an error on an item of the first bulk is
/// the result, and otherwise the result is that of calling `f` on the items of the second.
pub proof fn law_chain_try_for_each<A: Bulk, B: Bulk<Item = A::Item>, E, F: FnMut(A::Item) -> Result<(), E>>(
    c: Chain<A, B>,
    f: F,
    s: Seq<A::Item>,
    r: Result<(), E>,
)
    requires
        c.yields(s),
        try_each_yields(f, s, r),
    ensures
        exists|x: Seq<A::Item>, y: Seq<A::Item>, rx: Result<(), E>|
            #![trigger c@.0.yields(x), c@.1.yields(y), try_each_yields(f, x, rx)]
            c@.0.yields(x) && c@.1.yields(y) && s == x + y && try_each_yields(f, x, rx) && (rx is Err ==> r
                == rx) && (rx is Ok ==> try_each_yields(f, y, r)),
{
    let (x, y) = choose|x: Seq<A::Item>, y: Seq<A::Item>|
        #![trigger c@.0.yields(x), c@.1.yields(y)]
        c@.0.yields(x) && c@.1.yields(y) && s == x + y;
    let n = x.len() as int;
    assert forall|i: int| 0 <= i < x.len() implies #[trigger] x[i] == s[i] by {}
    assert forall|i: int| 0 <= i < y.len() implies #[trigger] y[i] == s[n + i] by {}
    let ok = Ok::<(), E>(());
    if r is Ok {
        assert(forall|i: int| 0 <= i < s.len() ==> call_ensures(f, (#[trigger] s[i],), Ok::<(), E>(())));
        assert forall|i: int| 0 <= i < x.len() implies call_ensures(f, (#[trigger] x[i],), Ok::<(), E>(())) by {
            assert(s[i] == x[i]);
        }
        assert forall|i: int| 0 <= i < y.len() implies call_ensures(f, (#[trigger] y[i],), Ok::<(), E>(())) by {
            assert(s[n + i] == y[i]);
        }
        assert(try_each_yields(f, x, ok));
        assert(try_each_yields(f, y, r));
    } else {
        let k = choose|k: int|
            0 <= k < s.len() && r is Err && call_ensures(f, (s[k],), r) && #[trigger] try_each_ok_prefix(f, s, k);
        if k < n {
            assert forall|i: int| 0 <= i < k implies call_ensures(f, (#[trigger] x[i],), Ok::<(), E>(())) by {
                assert(s[i] == x[i]);
                assert(call_ensures(f, (s[i],), Ok::<(), E>(())));
            }
            assert(try_each_ok_prefix(f, x, k));
            assert(x[k] == s[k]);
            assert(try_each_yields(f, x, r));
        } else {
            let k2 = k - n;
            assert forall|i: int| 0 <= i < x.len() implies call_ensures(f, (#[trigger] x[i],), Ok::<(), E>(())) by {
                assert(s[i] == x[i]);
                assert(call_ensures(f, (s[i],), Ok::<(), E>(())));
            }
            assert(try_each_yields(f, x, ok));
            assert forall|i: int| 0 <= i < k2 implies call_ensures(f, (#[trigger] y[i],), Ok::<(), E>(())) by {
                assert(s[n + i] == y[i]);
                assert(call_ensures(f, (s[n + i],), Ok::<(), E>(())));
            }
            assert(try_each_ok_prefix(f, y, k2));
            assert(y[k2] == s[k]);
            assert(try_each_yields(f, y, r));
        }
    }
}

} // verus!
