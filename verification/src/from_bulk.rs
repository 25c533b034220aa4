//! Collections that a bulk can be collected into.
use vstd::prelude::*;

use crate::bulk::Bulk;
use crate::option::option_seq;
use crate::util::{reversed, string_push, string_push_str, vec_into_array};

verus! {

/// A collection that can be built from the items of a bulk.
///
/// `accepts(n)` says whether the collection can be built from exactly `n` items, and
/// `collected(s, r)` that `r` is the collection built from the items `s`.
pub trait FromBulk<T>: Sized {
    spec fn accepts(n: nat) -> bool;

    spec fn collected(s: Seq<T>, r: Self) -> bool;

    /// Builds the collection from the items of `v`, in order.
    fn from_vec(v: Vec<T>) -> (r: Self)
        requires
            Self::accepts(v@.len()),
        ensures
            Self::collected(v@, r),
    ;
}

/// Building a collection straight from a bulk.
pub trait FromBulkExt<T>: FromBulk<T> {
    /// Builds the collection from the items that `bulk` yields, in order.
    fn from_bulk<B: Bulk<Item = T>>(bulk: B) -> (r: Self)
        requires
            bulk.wf(),
            Self::accepts(bulk.spec_len()),
        ensures
            exists|s: Seq<T>| #[trigger] bulk.yields(s) && Self::collected(s, r),
    ;
}

impl<T, C: FromBulk<T>> FromBulkExt<T> for C {
    fn from_bulk<B: Bulk<Item = T>>(bulk: B) -> (r: C) {
        let ghost b = bulk;
        let v = bulk.collect_vec();
        let ghost s = v@;
        proof {
            b.lemma_yields_len(s);
        }
        let r = C::from_vec(v);
        assert(b.yields(s));
        r
    }
}

impl<T> FromBulk<T> for Vec<T> {
    open spec fn accepts(n: nat) -> bool {
        true
    }

    open spec fn collected(s: Seq<T>, r: Vec<T>) -> bool {
        r@ == s
    }

    fn from_vec(v: Vec<T>) -> (r: Vec<T>) {
        v
    }
}

impl FromBulk<char> for String {
    open spec fn accepts(n: nat) -> bool {
        true
    }

    open spec fn collected(s: Seq<char>, r: String) -> bool {
        r@ == s
    }

    fn from_vec(v: Vec<char>) -> (r: String) {
        let mut r = String::new();
        let mut i: usize = 0;
        while i < v.len()
            invariant
                i <= v@.len(),
                r@ == v@.take(i as int),
            decreases v@.len() - i,
        {
            string_push(&mut r, v[i]);
            assert(v@.take(i + 1) =~= v@.take(i as int).push(v@[i as int]));
            i = i + 1;
        }
        assert(v@.take(v@.len() as int) =~= v@);
        r
    }
}

impl<'a> FromBulk<&'a char> for String {
    open spec fn accepts(n: nat) -> bool {
        true
    }

    open spec fn collected(s: Seq<&'a char>, r: String) -> bool {
        r@ == s.map_values(|c: &char| *c)
    }

    fn from_vec(v: Vec<&'a char>) -> (r: String) {
        let mut r = String::new();
        let mut i: usize = 0;
        while i < v.len()
            invariant
                i <= v@.len(),
                r@ == v@.take(i as int).map_values(|c: &char| *c),
            decreases v@.len() - i,
        {
            let c: char = *v[i];
            string_push(&mut r, c);
            assert(v@.take(i + 1).map_values(|c: &char| *c) =~= v@.take(i as int).map_values(|c: &char| *c).push(c));
            i = i + 1;
        }
        assert(v@.take(v@.len() as int) =~= v@);
        r
    }
}

/// The characters of the strings of `s`, one string after another.
pub open spec fn concat_strs(s: Seq<&str>) -> Seq<char> {
    s.map_values(|t: &str| t@).flatten()
}

impl<'a> FromBulk<&'a str> for String {
    open spec fn accepts(n: nat) -> bool {
        true
    }

    open spec fn collected(s: Seq<&'a str>, r: String) -> bool {
        r@ == concat_strs(s)
    }

    fn from_vec(v: Vec<&'a str>) -> (r: String) {
        let mut r = String::new();
        let mut i: usize = 0;
        assert(v@.take(0).map_values(|t: &str| t@) =~= Seq::<Seq<char>>::empty());
        while i < v.len()
            invariant
                i <= v@.len(),
                r@ == concat_strs(v@.take(i as int)),
            decreases v@.len() - i,
        {
            let t = v[i];
            string_push_str(&mut r, t);
            proof {
                let pre = v@.take(i as int);
                assert(v@.take(i + 1) =~= pre.push(t));
                assert(pre.push(t).map_values(|t: &str| t@) =~= pre.map_values(|t: &str| t@).push(t@));
                pre.map_values(|t: &str| t@).lemma_flatten_push(t@);
            }
            i = i + 1;
        }
        assert(v@.take(v@.len() as int) =~= v@);
        r
    }
}

impl<T, const N: usize> FromBulk<T> for [T; N] {
    open spec fn accepts(n: nat) -> bool {
        n == N
    }

    open spec fn collected(s: Seq<T>, r: [T; N]) -> bool {
        r@ == s
    }

    fn from_vec(v: Vec<T>) -> (r: [T; N]) {
        vec_into_array(v)
    }
}

impl<T> FromBulk<T> for Option<T> {
    open spec fn accepts(n: nat) -> bool {
        n <= 1
    }

    open spec fn collected(s: Seq<T>, r: Option<T>) -> bool {
        option_seq(r) == s
    }

    fn from_vec(v: Vec<T>) -> (r: Option<T>) {
        let mut v = v;
        let ghost s = v@;
        let r = v.pop();
        proof {
            if s.len() == 1 {
                assert(s =~= seq![s[0]]);
            } else {
                assert(s =~= Seq::<T>::empty());
            }
        }
        r
    }
}

/// Every item of `s` is `Some`.
pub open spec fn all_some<T>(s: Seq<Option<T>>) -> bool {
    forall|i: int| 0 <= i < s.len() ==> #[trigger] s[i] is Some
}

/// The values inside the items of `s`, all of them `Some`.
pub open spec fn some_values<T>(s: Seq<Option<T>>) -> Seq<T> {
    s.map_values(|x: Option<T>| x->0)
}

/// Every item of `s` is `Ok`.
pub open spec fn all_ok<T, E>(s: Seq<Result<T, E>>) -> bool {
    forall|i: int| 0 <= i < s.len() ==> #[trigger] s[i] is Ok
}

/// The values inside the items of `s`, all of them `Ok`.
pub open spec fn ok_values<T, E>(s: Seq<Result<T, E>>) -> Seq<T> {
    s.map_values(|x: Result<T, E>| x->Ok_0)
}

/// `e` is the error of the first item of `s` that is not `Ok`.
pub open spec fn first_err<T, E>(s: Seq<Result<T, E>>, e: E) -> bool {
    exists|k: int| 0 <= k < s.len() && #[trigger] s[k] == Err::<T, E>(e) && forall|i: int| 0 <= i < k ==> s[i] is Ok
}

/// Unwraps the items of `v` if all of them are `Some`.
pub fn collect_options<T>(v: Vec<Option<T>>) -> (r: Option<Vec<T>>)
    ensures
        r is Some <==> all_some(v@),
        r matches Some(a) ==> a@ == some_values(v@),
{
    let ghost s = v@;
    let n = v.len();
    let mut rest = reversed(v);
    let mut out: Vec<T> = Vec::new();
    while rest.len() > 0
        invariant
            s == v@,
            s.len() == n,
            out@.len() + rest@.len() == n,
            forall|j: int| 0 <= j < rest@.len() ==> rest@[j] == s[s.len() - 1 - j],
            forall|i: int| 0 <= i < out@.len() ==> #[trigger] s[i] == Some(out@[i]),
        decreases rest.len(),
    {
        let k = out.len();
        let x = rest.pop().unwrap();
        assert(x == s[k as int]);
        match x {
            Some(y) => {
                out.push(y);
                assert(s[k as int] == Some(out@[k as int]));
            },
            None => {
                assert(!(s[k as int] is Some));
                return None;
            },
        }
    }
    proof {
        assert forall|i: int| 0 <= i < s.len() implies #[trigger] s[i] is Some by {
            assert(s[i] == Some(out@[i]));
        }
        assert(out@ =~= some_values(s));
    }
    Some(out)
}

/// Unwraps the items of `v` if all of them are `Ok`, else returns the first error.
pub fn collect_results<T, E>(v: Vec<Result<T, E>>) -> (r: Result<Vec<T>, E>)
    ensures
        r is Ok <==> all_ok(v@),
        r matches Ok(a) ==> a@ == ok_values(v@),
        r matches Err(e) ==> first_err(v@, e),
{
    let ghost s = v@;
    let n = v.len();
    let mut rest = reversed(v);
    let mut out: Vec<T> = Vec::new();
    while rest.len() > 0
        invariant
            s == v@,
            s.len() == n,
            out@.len() + rest@.len() == n,
            forall|j: int| 0 <= j < rest@.len() ==> rest@[j] == s[s.len() - 1 - j],
            forall|i: int| 0 <= i < out@.len() ==> #[trigger] s[i] == Ok::<T, E>(out@[i]),
        decreases rest.len(),
    {
        let k = out.len();
        let x = rest.pop().unwrap();
        assert(x == s[k as int]);
        match x {
            Ok(y) => {
                out.push(y);
                assert(s[k as int] == Ok::<T, E>(out@[k as int]));
            },
            Err(e) => {
                assert(s[k as int] == Err::<T, E>(e));
                assert forall|i: int| 0 <= i < k implies s[i] is Ok by {
                    assert(s[i] == Ok::<T, E>(out@[i]));
                }
                assert(!(s[k as int] is Ok));
                return Err(e);
            },
        }
    }
    proof {
        assert forall|i: int| 0 <= i < s.len() implies #[trigger] s[i] is Ok by {
            assert(s[i] == Ok::<T, E>(out@[i]));
        }
        assert(out@ =~= ok_values(s));
    }
    Ok(out)
}

/// An item type, `Option` or `Result`, whose values a bulk can be collected into an array
/// of, stopping at the first `None` or error.
pub trait TryCollectArray<const N: usize>: Sized {
    type Output;

    spec fn try_collected(s: Seq<Self>, r: Self::Output) -> bool;

    /// Collects the values of the items of `v` into an array.
    fn try_collect_vec(v: Vec<Self>) -> (r: Self::Output)
        requires
            v@.len() == N,
        ensures
            Self::try_collected(v@, r),
    ;
}

impl<T, const N: usize> TryCollectArray<N> for Option<T> {
    type Output = Option<[T; N]>;

    open spec fn try_collected(s: Seq<Option<T>>, r: Option<[T; N]>) -> bool {
        &&& r is Some <==> all_some(s)
        &&& r matches Some(a) ==> a@ == some_values(s)
    }

    fn try_collect_vec(v: Vec<Option<T>>) -> (r: Option<[T; N]>) {
        match collect_options(v) {
            Some(a) => Some(vec_into_array(a)),
            None => None,
        }
    }
}

impl<T, E, const N: usize> TryCollectArray<N> for Result<T, E> {
    type Output = Result<[T; N], E>;

    open spec fn try_collected(s: Seq<Result<T, E>>, r: Result<[T; N], E>) -> bool {
        &&& r is Ok <==> all_ok(s)
        &&& r matches Ok(a) ==> a@ == ok_values(s)
        &&& r matches Err(e) ==> first_err(s, e)
    }

    fn try_collect_vec(v: Vec<Result<T, E>>) -> (r: Result<[T; N], E>) {
        match collect_results(v) {
            Ok(a) => Ok(vec_into_array(a)),
            Err(e) => Err(e),
        }
    }
}

impl<T, const N: usize> FromBulk<Option<T>> for Option<[T; N]> {
    open spec fn accepts(n: nat) -> bool {
        n == N
    }

    open spec fn collected(s: Seq<Option<T>>, r: Option<[T; N]>) -> bool {
        <Option<T> as TryCollectArray<N>>::try_collected(s, r)
    }

    fn from_vec(v: Vec<Option<T>>) -> (r: Option<[T; N]>) {
        <Option<T> as TryCollectArray<N>>::try_collect_vec(v)
    }
}

impl<T, E, const N: usize> FromBulk<Result<T, E>> for Result<[T; N], E> {
    open spec fn accepts(n: nat) -> bool {
        n == N
    }

    open spec fn collected(s: Seq<Result<T, E>>, r: Result<[T; N], E>) -> bool {
        <Result<T, E> as TryCollectArray<N>>::try_collected(s, r)
    }

    fn from_vec(v: Vec<Result<T, E>>) -> (r: Result<[T; N], E>) {
        <Result<T, E> as TryCollectArray<N>>::try_collect_vec(v)
    }
}

} // verus!
