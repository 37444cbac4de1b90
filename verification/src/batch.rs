//! Chunking of batch writes: the remote API caps how many items one write
//! request may carry, so an oversized batch is split into successive chunks.
//! The caps are configuration values, not properties of the algorithm.

use vstd::prelude::*;

use crate::ids::TrackId;

verus! {

/// Number of items one insertion request may carry.
pub const INSERT_CHUNK_SIZE: usize = 100;

/// Number of items one deletion request may carry.
pub const REMOVE_CHUNK_SIZE: usize = 50;

/// The caps a transfer run chunks its writes with.
#[derive(Debug, Clone, Copy, PartialEq, Eq, Structural)]
pub struct BatchLimits {
    pub insert_chunk_size: usize,
    pub remove_chunk_size: usize,
}

impl Default for BatchLimits {
    /// The reference provider's documented caps.
    fn default() -> (r: BatchLimits)
        ensures
            r.insert_chunk_size == INSERT_CHUNK_SIZE,
            r.remove_chunk_size == REMOVE_CHUNK_SIZE,
    {
        BatchLimits { insert_chunk_size: INSERT_CHUNK_SIZE, remove_chunk_size: REMOVE_CHUNK_SIZE }
    }
}

/// The successive chunks of `s` under cap `cap`: full chunks followed by one
/// shorter final chunk, none empty.
pub open spec fn chunks_of<T>(s: Seq<T>, cap: int) -> Seq<Seq<T>>
    decreases s.len(),
    when cap >= 1
{
    if s.len() == 0 {
        Seq::empty()
    } else if s.len() <= cap {
        seq![s]
    } else {
        seq![s.take(cap)] + chunks_of(s.skip(cap), cap)
    }
}

/// Concatenated back together, the chunks are the original batch: nothing is
/// lost, duplicated or reordered by chunking. With the chunks of a removal
/// sweep this says that the requests of the sweep cover the entire pre-run
/// source collection.
pub proof fn lemma_chunks_cover<T>(s: Seq<T>, cap: int)
    requires
        cap >= 1,
    ensures
        chunks_of(s, cap).flatten() =~= s,
    decreases s.len(),
{
    if s.len() == 0 {
    } else if s.len() <= cap {
        assert(chunks_of(s, cap) =~= seq![s]);
        seq![s].lemma_flatten_one_element();
    } else {
        lemma_chunks_cover(s.skip(cap), cap);
        let cs = chunks_of(s, cap);
        assert(cs.first() == s.take(cap));
        assert(cs.drop_first() =~= chunks_of(s.skip(cap), cap));
        assert(cs.flatten() =~= s.take(cap) + chunks_of(s.skip(cap), cap).flatten());
        assert(s.take(cap) + s.skip(cap) =~= s);
    }
}

/// Every chunk is non-empty and at most `cap` long, and all but the last are
/// exactly `cap` long.
pub proof fn lemma_chunks_shape<T>(s: Seq<T>, cap: int)
    requires
        cap >= 1,
    ensures
        forall|i: int|
            0 <= i < chunks_of(s, cap).len() ==> 1 <= (#[trigger] chunks_of(s, cap)[i]).len()
                <= cap,
        forall|i: int|
            0 <= i < chunks_of(s, cap).len() - 1 ==> (#[trigger] chunks_of(s, cap)[i]).len()
                == cap,
    decreases s.len(),
{
    if s.len() == 0 {
    } else if s.len() <= cap {
    } else {
        lemma_chunks_shape(s.skip(cap), cap);
        let cs = chunks_of(s, cap);
        let rest = chunks_of(s.skip(cap), cap);
        assert forall|i: int| 0 <= i < cs.len() implies 1 <= (#[trigger] cs[i]).len() <= cap by {
            if i >= 1 {
                assert(cs[i] == rest[i - 1]);
            }
        }
        assert forall|i: int| 0 <= i < cs.len() - 1 implies (#[trigger] cs[i]).len() == cap by {
            if i >= 1 {
                assert(cs[i] == rest[i - 1]);
            }
        }
    }
}

/// How many requests a batch of `n` items costs under cap `cap`: one per
/// started chunk.
pub proof fn lemma_chunks_count<T>(s: Seq<T>, cap: int)
    requires
        cap >= 1,
    ensures
        chunks_of(s, cap).len() == (s.len() + cap - 1) / cap,
    decreases s.len(),
{
    if s.len() == 0 {
        assert((0 + cap - 1) / cap == 0) by (nonlinear_arith)
            requires
                cap >= 1,
        ;
    } else if s.len() <= cap {
        assert((s.len() + cap - 1) / cap == 1) by (nonlinear_arith)
            requires
                cap >= 1 && 1 <= s.len() <= cap,
        ;
    } else {
        lemma_chunks_count(s.skip(cap), cap);
        assert(s.skip(cap).len() == s.len() - cap);
        assert(1 + (s.len() - cap + cap - 1) / cap == (s.len() + cap - 1) / cap)
            by (nonlinear_arith)
            requires
                cap >= 1 && s.len() > cap,
        ;
    }
}

/// The first chunk of a non-empty batch, and what is left after it.
pub open spec fn first_chunk<T>(s: Seq<T>, cap: int) -> Seq<T> {
    if s.len() <= cap {
        s
    } else {
        s.take(cap)
    }
}

/// What remains of a batch after its first chunk.
pub open spec fn rest_after_chunk<T>(s: Seq<T>, cap: int) -> Seq<T> {
    if s.len() <= cap {
        Seq::empty()
    } else {
        s.skip(cap)
    }
}

/// Peeling the first chunk off a non-empty batch is what the chunk list
/// itself does: the emitted chunk is the head of `chunks_of`, and the chunks
/// of the rest are its tail.
pub proof fn lemma_chunks_step<T>(s: Seq<T>, cap: int)
    requires
        cap >= 1,
        s.len() > 0,
    ensures
        chunks_of(s, cap).len() >= 1,
        chunks_of(s, cap).first() == first_chunk(s, cap),
        chunks_of(s, cap).drop_first() =~= chunks_of(rest_after_chunk(s, cap), cap),
{
    if s.len() <= cap {
        assert(chunks_of(s, cap) =~= seq![s]);
    }
}

/// Copy `count` identifiers beginning at `start` out of `v`.
pub fn slice_ids(v: &Vec<TrackId>, start: usize, count: usize) -> (r: Vec<TrackId>)
    requires
        start + count <= v@.len(),
    ensures
        r@ == v@.subrange(start as int, start + count),
{
    let n: usize = v.len();
    let mut out: Vec<TrackId> = Vec::new();
    let mut i: usize = 0;
    while i < count
        invariant
            0 <= i <= count,
            n == v@.len(),
            start + count <= n,
            out@.len() == i,
            forall|k: int| 0 <= k < i ==> out@[k] == v@[start + k],
        decreases count - i,
    {
        out.push(v[start + i].clone());
        i = i + 1;
    }
    proof {
        assert(out@ =~= v@.subrange(start as int, start + count));
    }
    out
}

/// The smaller of two sizes.
pub fn min_usize(a: usize, b: usize) -> (r: usize)
    ensures
        r == if a <= b {
            a as int
        } else {
            b as int
        },
{
    if a <= b {
        a
    } else {
        b
    }
}

} // verus!
