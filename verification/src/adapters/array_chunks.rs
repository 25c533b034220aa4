//! A bulk of consecutive chunks of `N` items.
use vstd::prelude::*;

use crate::adapters::array_chunks_with_remainder::{chunk_remainder, chunked, ArrayChunksWithRemainder};
use crate::adapters::rev::Rev;
use crate::bulk::{accepts_each, each_called, try_each_yields, try_for_each_item, for_each_item, Bulk};
use crate::from_bulk::FromBulk;

verus! {

/// A bulk over `N` items of `bulk` at a time; the chunks do not overlap, and the last
/// items, if they do not fill a chunk, are left out (or handed back as the remainder).
pub struct ArrayChunks<B, const N: usize> {
    bulk: B,
}

impl<B, const N: usize> View for ArrayChunks<B, N> {
    type V = B;

    closed spec fn view(&self) -> B {
        self.bulk
    }
}

impl<B: Bulk, const N: usize> ArrayChunks<B, N> {
    pub(crate) fn new(bulk: B) -> (r: Self)
        requires
            N > 0,
        ensures
            r@ == bulk,
    {
        ArrayChunks { bulk }
    }

    /// Returns the bulk that this one chunks.
    pub fn into_inner(self) -> (b: B)
        ensures
            b == self@,
    {
        self.bulk
    }

    /// The number of items passed over before the first chunk: the leftover items when the
    /// chunks are taken from the back (`REV`), and none otherwise.
    pub(crate) fn skip_len<const REV: bool>(&self) -> (n: usize)
        requires
            self.wf(),
        ensures
            n == if REV { self@.spec_len() % (N as nat) } else { 0 },
    {
        assert(self@ == self.bulk);
        if REV {
            self.bulk.len() % N
        } else {
            0
        }
    }

    /// Calls `f` on each chunk in order and returns a bulk of the items left over.
    pub fn for_each_with_remainder<F: FnMut([B::Item; N])>(self, f: F) -> (r: crate::vec::IntoBulk<B::Item>)
        requires
            self.wf(),
            forall|t: Seq<B::Item>, c: Seq<[B::Item; N]>|
                #![trigger self@.yields(t), chunked::<B::Item, N>(t, c)]
                self@.yields(t) && chunked::<B::Item, N>(t, c) ==> accepts_each(f, c),
        ensures
            exists|t: Seq<B::Item>, c: Seq<[B::Item; N]>|
                #![trigger self@.yields(t), chunked::<B::Item, N>(t, c)]
                self@.yields(t) && chunked::<B::Item, N>(t, c) && each_called(f, c) && r@ == chunk_remainder(
                    t,
                    N as nat,
                ),
    {
        let ghost b = self;
        let (chunks, rem) = ArrayChunksWithRemainder::<B, N, false>::new(self.bulk).into_chunks();
        let ghost cs = chunks@;
        let ghost t = choose|t: Seq<B::Item>|
            #[trigger] b@.yields(t) && rem@ == chunk_remainder(t, N as nat) && chunked::<B::Item, N>(t, cs);
        for_each_item(chunks, f);
        assert(b@.yields(t) && chunked::<B::Item, N>(t, cs));
        crate::vec::IntoBulk::new(rem)
    }

    /// Calls the fallible `f` on each chunk in order, stopping at the first error; on
    /// success returns a bulk of the items left over.
    pub fn try_for_each_with_remainder<E, F: FnMut([B::Item; N]) -> Result<(), E>>(self, f: F) -> (r: Result<
        crate::vec::IntoBulk<B::Item>,
        E,
    >)
        requires
            self.wf(),
            forall|t: Seq<B::Item>, c: Seq<[B::Item; N]>|
                #![trigger self@.yields(t), chunked::<B::Item, N>(t, c)]
                self@.yields(t) && chunked::<B::Item, N>(t, c) ==> accepts_each(f, c),
        ensures
            exists|t: Seq<B::Item>, c: Seq<[B::Item; N]>|
                #![trigger self@.yields(t), chunked::<B::Item, N>(t, c)]
                self@.yields(t) && chunked::<B::Item, N>(t, c) && match r {
                    Ok(rem) => try_each_yields(f, c, Ok::<(), E>(())) && rem@ == chunk_remainder(t, N as nat),
                    Err(e) => try_each_yields(f, c, Err::<(), E>(e)),
                },
    {
        let (chunks, rem) = ArrayChunksWithRemainder::<B, N, false>::new(self.bulk).into_chunks();
        match try_for_each_item(chunks, f) {
            Ok(()) => Ok(crate::vec::IntoBulk::new(rem)),
            Err(e) => Err(e),
        }
    }

    /// Collects the chunks into a collection and returns it with a bulk of the items left
    /// over.
    pub fn collect_with_remainder<C: FromBulk<[B::Item; N]>>(self) -> (r: (C, crate::vec::IntoBulk<B::Item>))
        requires
            self.wf(),
            C::accepts(self.spec_len()),
        ensures
            exists|t: Seq<B::Item>, c: Seq<[B::Item; N]>|
                #![trigger self@.yields(t), chunked::<B::Item, N>(t, c)]
                self@.yields(t) && chunked::<B::Item, N>(t, c) && C::collected(c, r.0) && r.1@
                    == chunk_remainder(t, N as nat),
    {
        let ghost b = self;
        let (chunks, rem) = ArrayChunksWithRemainder::<B, N, false>::new(self.bulk).into_chunks();
        let ghost cs = chunks@;
        let ghost t = choose|t: Seq<B::Item>|
            #[trigger] b@.yields(t) && rem@ == chunk_remainder(t, N as nat) && chunked::<B::Item, N>(t, cs);
        proof {
            b@.lemma_yields_len(t);
        }
        let c = C::from_vec(chunks);
        assert(b@.yields(t) && chunked::<B::Item, N>(t, cs));
        (c, crate::vec::IntoBulk::new(rem))
    }
}

impl<B: Bulk, const N: usize> Rev<ArrayChunks<B, N>> {
    /// Calls `f` on each chunk, last chunk first, and returns a bulk of the items left over
    /// after the last chunk.
    pub fn for_each_with_remainder<F: FnMut([B::Item; N])>(self, f: F) -> (r: crate::vec::IntoBulk<B::Item>)
        requires
            self.wf(),
            forall|t: Seq<B::Item>, c: Seq<[B::Item; N]>|
                #![trigger self@@.yields(t), chunked::<B::Item, N>(t, c)]
                self@@.yields(t) && chunked::<B::Item, N>(t, c) ==> accepts_each(f, c),
        ensures
            exists|t: Seq<B::Item>, c: Seq<[B::Item; N]>|
                #![trigger self@@.yields(t), chunked::<B::Item, N>(t, c)]
                self@@.yields(t) && chunked::<B::Item, N>(t, c) && each_called(f, c.reverse()) && r@
                    == chunk_remainder(t, N as nat),
    {
        let ghost b = self;
        let inner = self.into_inner().into_inner();
        let (chunks, rem) = ArrayChunksWithRemainder::<B, N, true>::new(inner).into_chunks();
        let ghost cs = chunks@;
        let ghost t = choose|t: Seq<B::Item>|
            #[trigger] b@@.yields(t) && rem@ == chunk_remainder(t, N as nat) && chunked::<B::Item, N>(t, cs.reverse());
        assert(accepts_each(f, cs)) by {
            assert(b@@.yields(t) && chunked::<B::Item, N>(t, cs.reverse()));
            assert forall|i: int| 0 <= i < cs.len() implies call_requires(f, (cs[i],)) by {
                assert(cs[i] == cs.reverse()[cs.len() - 1 - i]);
            }
        }
        for_each_item(chunks, f);
        proof {
            assert(cs.reverse().reverse() =~= cs);
        }
        assert(b@@.yields(t) && chunked::<B::Item, N>(t, cs.reverse()));
        crate::vec::IntoBulk::new(rem)
    }

    /// Calls the fallible `f` on each chunk, last chunk first, stopping at the first error;
    /// on success returns a bulk of the items left over after the last chunk.
    pub fn try_for_each_with_remainder<E, F: FnMut([B::Item; N]) -> Result<(), E>>(self, f: F) -> (r: Result<
        crate::vec::IntoBulk<B::Item>,
        E,
    >)
        requires
            self.wf(),
            forall|t: Seq<B::Item>, c: Seq<[B::Item; N]>|
                #![trigger self@@.yields(t), chunked::<B::Item, N>(t, c)]
                self@@.yields(t) && chunked::<B::Item, N>(t, c) ==> accepts_each(f, c),
        ensures
            exists|t: Seq<B::Item>, c: Seq<[B::Item; N]>|
                #![trigger self@@.yields(t), chunked::<B::Item, N>(t, c)]
                self@@.yields(t) && chunked::<B::Item, N>(t, c) && match r {
                    Ok(rem) => try_each_yields(f, c.reverse(), Ok::<(), E>(())) && rem@ == chunk_remainder(
                        t,
                        N as nat,
                    ),
                    Err(e) => try_each_yields(f, c.reverse(), Err::<(), E>(e)),
                },
    {
        let ghost b = self;
        let inner = self.into_inner().into_inner();
        let (chunks, rem) = ArrayChunksWithRemainder::<B, N, true>::new(inner).into_chunks();
        let ghost cs = chunks@;
        let ghost t = choose|t: Seq<B::Item>|
            #[trigger] b@@.yields(t) && rem@ == chunk_remainder(t, N as nat) && chunked::<B::Item, N>(t, cs.reverse());
        assert(accepts_each(f, cs)) by {
            assert(b@@.yields(t) && chunked::<B::Item, N>(t, cs.reverse()));
            assert forall|i: int| 0 <= i < cs.len() implies call_requires(f, (cs[i],)) by {
                assert(cs[i] == cs.reverse()[cs.len() - 1 - i]);
            }
        }
        let r = try_for_each_item(chunks, f);
        proof {
            assert(cs.reverse().reverse() =~= cs);
        }
        match r {
            Ok(()) => Ok(crate::vec::IntoBulk::new(rem)),
            Err(e) => Err(e),
        }
    }

    /// Collects the chunks, last chunk first, into a collection and returns it with a bulk
    /// of the items left over after the last chunk.
    pub fn collect_with_remainder<C: FromBulk<[B::Item; N]>>(self) -> (r: (C, crate::vec::IntoBulk<B::Item>))
        requires
            self.wf(),
            C::accepts(self.spec_len()),
        ensures
            exists|t: Seq<B::Item>, c: Seq<[B::Item; N]>|
                #![trigger self@@.yields(t), chunked::<B::Item, N>(t, c)]
                self@@.yields(t) && chunked::<B::Item, N>(t, c) && C::collected(c.reverse(), r.0) && r.1@
                    == chunk_remainder(t, N as nat),
    {
        let ghost b = self;
        let inner = self.into_inner().into_inner();
        let (chunks, rem) = ArrayChunksWithRemainder::<B, N, true>::new(inner).into_chunks();
        let ghost cs = chunks@;
        let ghost t = choose|t: Seq<B::Item>|
            #[trigger] b@@.yields(t) && rem@ == chunk_remainder(t, N as nat) && chunked::<B::Item, N>(t, cs.reverse());
        proof {
            b@@.lemma_yields_len(t);
            assert(cs.reverse().reverse() =~= cs);
        }
        let c = C::from_vec(chunks);
        assert(b@@.yields(t) && chunked::<B::Item, N>(t, cs.reverse()));
        (c, crate::vec::IntoBulk::new(rem))
    }
}

impl<B: Bulk, const N: usize> Bulk for ArrayChunks<B, N> {
    type Item = [B::Item; N];

    open spec fn wf(&self) -> bool {
        self@.wf() && N > 0
    }

    open spec fn spec_len(&self) -> nat {
        ((self@.spec_len() as int) / (N as int)) as nat
    }

    open spec fn yields(&self, s: Seq<[B::Item; N]>) -> bool {
        exists|t: Seq<B::Item>| #[trigger] self@.yields(t) && chunked::<B::Item, N>(t, s)
    }

    proof fn lemma_yields_len(&self, s: Seq<[B::Item; N]>) {
        let t = choose|t: Seq<B::Item>| #[trigger] self@.yields(t) && chunked::<B::Item, N>(t, s);
        self@.lemma_yields_len(t);
    }

    fn len(&self) -> (n: usize) {
        assert(self@ == self.bulk);
        self.bulk.len() / N
    }

    fn collect_vec(self) -> (v: Vec<[B::Item; N]>) {
        let ghost b = self;
        assert(b@ == self.bulk);
        let (chunks, _rem) = ArrayChunksWithRemainder::<B, N, false>::new(self.bulk).into_chunks();
        assert(b.yields(chunks@));
        chunks
    }
}

} // verus!
