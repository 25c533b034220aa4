//! Small vector and array helpers shared by the bulks.
use vstd::prelude::*;

verus! {

/// Returns the items of `v` in reverse order.
pub fn reversed<T>(v: Vec<T>) -> (r: Vec<T>)
    ensures
        r@ == v@.reverse(),
{
    let mut v = v;
    let ghost orig = v@;
    let mut r: Vec<T> = Vec::new();
    while v.len() > 0
        invariant
            v@ + r@.reverse() == orig,
        decreases v.len(),
    {
        let ghost before_v = v@;
        let ghost before_r = r@;
        let x = v.pop().unwrap();
        r.push(x);
        proof {
            assert(before_v == v@.push(x));
            assert(r@.reverse() =~= seq![x] + before_r.reverse());
            assert(v@ + r@.reverse() =~= before_v + before_r.reverse());
        }
    }
    proof {
        assert(orig =~= r@.reverse());
        assert(orig.reverse() =~= r@);
    }
    r
}

/// Moves the items of `a` into a vector, keeping their order
/// (`From<[T; N]> for Vec<T>` in std).
#[verifier::external_body]
pub(crate) fn array_to_vec<T, const N: usize>(a: [T; N]) -> (v: Vec<T>)
    ensures
        v@ == a@,
{
    Vec::from(a)
}

/// Moves the items of `v` into an array of length `N`
/// (`TryFrom<Vec<T>> for [T; N]` in std): `Some` exactly when the lengths agree.
#[verifier::external_body]
pub(crate) fn vec_to_array<T, const N: usize>(v: Vec<T>) -> (a: Option<[T; N]>)
    ensures
        a is Some <==> v@.len() == N,
        a matches Some(a) ==> a@ == v@,
{
    <[T; N]>::try_from(v).ok()
}

/// Moves the items of `v` into an array whose length is known to be `N`.
pub fn vec_into_array<T, const N: usize>(v: Vec<T>) -> (a: [T; N])
    requires
        v@.len() == N,
    ensures
        a@ == v@,
{
    vec_to_array(v).unwrap()
}

/// `s` with the items at `a` and `b` exchanged.
pub open spec fn swapped<T>(s: Seq<T>, a: int, b: int) -> Seq<T> {
    s.update(a, s[b]).update(b, s[a])
}

/// Swaps the items of `s` at `a` and `b` (`<[T]>::swap` in std, which panics when an index
/// is out of bounds, so both are required to be in bounds here).
#[verifier::external_body]
pub(crate) fn slice_swap<T>(s: &mut [T], a: usize, b: usize)
    requires
        a < old(s)@.len(),
        b < old(s)@.len(),
    ensures
        final(s)@ == swapped(old(s)@, a as int, b as int),
{
    s.swap(a, b)
}

/// std's `impl<T> From<T> for T`, which is also what `Into<T>` calls on a `T`: its
/// documentation says that it returns the argument unchanged.
pub assume_specification<Q>[ <Q as core::convert::From<Q>>::from ](q: Q) -> (r: Q)
    ensures
        r == q,
;

/// Appends `c` to the end of `s` (`String::push` in std).
#[verifier::external_body]
pub(crate) fn string_push(s: &mut String, c: char)
    ensures
        final(s)@ == old(s)@.push(c),
{
    s.push(c)
}

/// Appends the characters of `t` to the end of `s` (`String::push_str` in std).
#[verifier::external_body]
pub(crate) fn string_push_str(s: &mut String, t: &str)
    ensures
        final(s)@ == old(s)@ + t@,
{
    s.push_str(t)
}

} // verus!
