//! Pull-based byte sources.
//!
//! A byte source can be asked for the next chunk of at most `max` bytes, can
//! report exhaustion by returning an empty chunk for a positive `max`, or can
//! report an error.  Its behaviour is modelled by `remaining()`, the sequence
//! of bytes it will still deliver: every successful pull hands out a prefix
//! of `remaining()` and consumes exactly that prefix.

use vstd::prelude::*;

verus! {

/// The error a byte source reports when it fails; it is propagated verbatim
/// through every decorator, never retried and never swallowed.
#[derive(Debug)]
pub struct SourceError {
    pub message: String,
}

impl SourceError {
    pub fn new(message: String) -> (r: SourceError)
        ensures
            r.message@ == message@,
    {
        SourceError { message }
    }
}

/// A sequential, forward-only producer of bytes.
///
/// `remaining()` is the sequence of bytes the source will still deliver, and
/// `inv()` is its well-formedness condition, which every constructor of an
/// implementing type establishes and `pull` preserves.
pub trait ByteSource: Sized {
    spec fn remaining(&self) -> Seq<u8>;

    spec fn inv(&self) -> bool;

    /// Ask for up to `max` further bytes.
    ///
    /// A successful pull returns a prefix of `remaining()` of at most `max`
    /// bytes and consumes it; an empty chunk for a positive `max` means the
    /// source is exhausted.  A failed pull leaves the source unchanged.
    fn pull(&mut self, max: usize) -> (r: Result<Vec<u8>, SourceError>)
        requires
            old(self).inv(),
        ensures
            final(self).inv(),
            match r {
                Ok(chunk) => {
                    &&& chunk@.len() <= max
                    &&& chunk@.len() <= old(self).remaining().len()
                    &&& chunk@ == old(self).remaining().take(chunk@.len() as int)
                    &&& final(self).remaining() == old(self).remaining().skip(chunk@.len() as int)
                    &&& (chunk@.len() == 0 && max > 0 ==> old(self).remaining().len() == 0)
                },
                Err(_) => final(self).remaining() == old(self).remaining(),
            },
    ;
}

/// Splitting a pull off the front of a stream loses nothing: the bytes a
/// source held before a pull are exactly the chunk delivered followed by the
/// bytes it holds afterwards.  Applied pull after pull, the concatenation of
/// all delivered chunks equals the bytes the source started with.
pub proof fn lemma_pull_concat(before: Seq<u8>, chunk: Seq<u8>, after: Seq<u8>)
    requires
        chunk.len() <= before.len(),
        chunk == before.take(chunk.len() as int),
        after == before.skip(chunk.len() as int),
    ensures
        before == chunk + after,
{
    assert(before =~= chunk + after);
}

/// A drain transcript: `states` are the values of `remaining()` before and
/// after each pull, `chunks` what the pulls delivered.  Every successful
/// pull takes a prefix and leaves the rest, so the concatenation of all
/// delivered chunks plus what is still left equals what the source began
/// with.
pub proof fn lemma_pull_trace(states: Seq<Seq<u8>>, chunks: Seq<Seq<u8>>)
    requires
        states.len() == chunks.len() + 1,
        forall|i: int|
            0 <= i < chunks.len() ==> (#[trigger] chunks[i]).len() <= states[i].len() && chunks[i]
                == states[i].take(chunks[i].len() as int) && states[i + 1] == states[i].skip(
                chunks[i].len() as int,
            ),
    ensures
        crate::hash::concat_of(chunks) + states.last() == states.first(),
    decreases chunks.len(),
{
    if chunks.len() == 0 {
        assert(crate::hash::concat_of(chunks) + states.last() =~= states.first());
    } else {
        let k = chunks.len() - 1;
        lemma_pull_trace(states.drop_last(), chunks.drop_last());
        lemma_pull_concat(states[k], chunks.last(), states[k + 1]);
        assert(states.drop_last().first() == states.first());
        assert(states.drop_last().last() == states[k]);
        assert(crate::hash::concat_of(chunks) + states.last() =~= crate::hash::concat_of(
            chunks.drop_last(),
        ) + (chunks.last() + states.last()));
    }
}

/// A byte source backed by an in-memory buffer.
pub struct MemorySource {
    data: Vec<u8>,
    pos: usize,
}

impl MemorySource {
    pub fn new(data: Vec<u8>) -> (r: MemorySource)
        ensures
            r.inv(),
            r.remaining() == data@,
    {
        MemorySource { data, pos: 0 }
    }
}

impl ByteSource for MemorySource {
    closed spec fn remaining(&self) -> Seq<u8> {
        self.data@.skip(self.pos as int)
    }

    closed spec fn inv(&self) -> bool {
        self.pos <= self.data@.len()
    }

    fn pull(&mut self, max: usize) -> (r: Result<Vec<u8>, SourceError>)
        ensures
            r matches Ok(chunk) && chunk@.len() == vstd::math::min(
                max as int,
                old(self).remaining().len() as int,
            ),
    {
        let dlen = self.data.len();
        let left = dlen - self.pos;
        let n = if max < left {
            max
        } else {
            left
        };
        let mut chunk: Vec<u8> = Vec::new();
        let mut i: usize = 0;
        while i < n
            invariant
                i <= n,
                self == old(self),
                self.pos + n <= self.data@.len(),
                self.data@.len() <= usize::MAX,
                chunk@ == self.data@.subrange(self.pos as int, self.pos + i),
            decreases n - i,
        {
            chunk.push(self.data[self.pos + i]);
            i = i + 1;
        }
        proof {
            assert(chunk@ =~= old(self).remaining().take(n as int));
            assert(self.data@.skip(self.pos + n as int) =~= old(self).remaining().skip(n as int));
        }
        self.pos = self.pos + n;
        Ok(chunk)
    }
}

} // verus!
