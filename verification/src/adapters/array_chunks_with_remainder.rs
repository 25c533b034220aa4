//! Splitting a bulk into chunks of `N` items, keeping the items that do not fill a chunk.
use vstd::prelude::*;

use crate::bulk::Bulk;
use crate::util::{reversed, vec_into_array};

verus! {

/// `c` holds the consecutive chunks of `N` items of `t`, as many as fit.
pub open spec fn chunked<T, const N: usize>(t: Seq<T>, c: Seq<[T; N]>) -> bool {
    &&& c.len() == (t.len() as int) / (N as int)
    &&& forall|k: int| 0 <= k < c.len() ==> #[trigger] c[k]@ == t.subrange(k * N, k * N + N)
}

/// The items of `t` after its last whole chunk of `n` items.
pub open spec fn chunk_remainder<T>(t: Seq<T>, n: nat) -> Seq<T> {
    t.skip(((t.len() as int) / (n as int)) * (n as int))
}

proof fn lemma_chunk_bounds(len: int, n: int, q: int)
    requires
        n > 0,
        0 <= len,
        q == len / n,
    ensures
        0 <= q * n <= len,
        len - q * n < n,
{
    assert(0 <= q * n <= len && len - q * n < n) by (nonlinear_arith)
        requires
            n > 0,
            0 <= len,
            q == len / n,
    ;
}

proof fn lemma_next_chunk(c: int, n: int, q: int)
    requires
        n > 0,
        0 <= c < q,
    ensures
        (c + 1) * n == c * n + n,
        c * n + n <= q * n,
        0 <= c * n,
{
    assert((c + 1) * n == c * n + n && c * n + n <= q * n && 0 <= c * n) by (nonlinear_arith)
        requires
            n > 0,
            0 <= c < q,
    ;
}

/// Splits the items of `v` into consecutive chunks of `N` and the items left over.
pub fn split_chunks<T, const N: usize>(v: Vec<T>) -> (r: (Vec<[T; N]>, Vec<T>))
    requires
        N > 0,
    ensures
        chunked::<T, N>(v@, r.0@),
        r.1@ == chunk_remainder(v@, N as nat),
{
    let ghost s = v@;
    let len = v.len();
    let q = len / N;
    proof {
        lemma_chunk_bounds(len as int, N as int, q as int);
    }
    let full = q * N;
    let mut v = v;
    let rem = v.split_off(full);
    assert(rem@ =~= chunk_remainder(s, N as nat));
    let mut rest = reversed(v);
    let mut chunks: Vec<[T; N]> = Vec::new();
    let ghost mut pos: int = 0;
    while chunks.len() < q
        invariant
            N > 0,
            s.len() == len,
            q == (len as int) / (N as int),
            full == q * N,
            full <= len,
            chunks@.len() <= q,
            pos == chunks@.len() * N,
            0 <= pos <= full,
            rest@.len() == full - pos,
            forall|j: int| 0 <= j < rest@.len() ==> rest@[j] == s[full - 1 - j],
            forall|k: int| 0 <= k < chunks@.len() ==> #[trigger] chunks@[k]@ == s.subrange(k * N, k * N + N),
        decreases q - chunks@.len(),
    {
        proof {
            lemma_next_chunk(chunks@.len() as int, N as int, q as int);
        }
        let mut c: Vec<T> = Vec::new();
        let mut j: usize = 0;
        while j < N
            invariant
                N > 0,
                j <= N,
                c@.len() == j,
                pos + N <= full,
                full <= s.len(),
                rest@.len() == full - pos - j,
                forall|jj: int| 0 <= jj < rest@.len() ==> rest@[jj] == s[full - 1 - jj],
                forall|m: int| 0 <= m < j ==> #[trigger] c@[m] == s[pos + m],
            decreases N - j,
        {
            let x = rest.pop().unwrap();
            c.push(x);
            j = j + 1;
        }
        let a: [T; N] = vec_into_array(c);
        assert(a@ =~= s.subrange(pos, pos + N));
        chunks.push(a);
        proof {
            pos = pos + N;
        }
    }
    (chunks, rem)
}

/// A bulk of chunks of `N` items of `bulk` whose leftover items are kept apart: in order
/// when `REV` is `false`, and with the chunks in reverse order when `REV` is `true`.
pub struct ArrayChunksWithRemainder<B, const N: usize, const REV: bool> {
    bulk: B,
}

impl<B, const N: usize, const REV: bool> View for ArrayChunksWithRemainder<B, N, REV> {
    type V = B;

    closed spec fn view(&self) -> B {
        self.bulk
    }
}

impl<B: Bulk, const N: usize, const REV: bool> ArrayChunksWithRemainder<B, N, REV> {
    pub(crate) fn new(bulk: B) -> (r: Self)
        requires
            N > 0,
        ensures
            r@ == bulk,
    {
        ArrayChunksWithRemainder { bulk }
    }

    /// The number of items that are passed over before the first chunk: the leftover items
    /// when the chunks come in reverse order, and none otherwise.
    pub(crate) fn skip_len(&self) -> (n: usize)
        requires
            self@.wf(),
            N > 0,
        ensures
            n == if REV { self@.spec_len() % (N as nat) } else { 0 },
    {
        assert(self@ == self.bulk);
        if REV {
            self.bulk.len() % N
        } else {
            0
        }
    }

    /// Consumes the bulk, returning its chunks (in the order that `REV` says) and the items
    /// left over.
    pub(crate) fn into_chunks(self) -> (r: (Vec<[B::Item; N]>, Vec<B::Item>))
        requires
            self@.wf(),
            N > 0,
        ensures
            exists|t: Seq<B::Item>|
                #[trigger] self@.yields(t) && r.1@ == chunk_remainder(t, N as nat) && if REV {
                    chunked::<B::Item, N>(t, r.0@.reverse())
                } else {
                    chunked::<B::Item, N>(t, r.0@)
                },
    {
        let ghost b = self;
        assert(b@ == self.bulk);
        let t = self.bulk.collect_vec();
        let ghost ts = t@;
        let (chunks, rem) = split_chunks::<B::Item, N>(t);
        assert(b@.yields(ts));
        if REV {
            let r = reversed(chunks);
            proof {
                assert(r@.reverse() =~= chunks@);
            }
            (r, rem)
        } else {
            (chunks, rem)
        }
    }
}

} // verus!
