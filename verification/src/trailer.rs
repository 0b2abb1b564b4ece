//! Digest-trailing byte delivery.
//!
//! `DigestTrailer` is the state machine that feeds every original byte into
//! the hash accumulator and, once the input is exhausted, hands out the
//! 40-byte hexadecimal digest as additional output, split across pulls as
//! the caller's buffer sizes demand.  `DigestTrailingSource` composes it
//! with any wrapped `ByteSource`; a driver that pulls from another kind of
//! producer (an asynchronous reader, a chunk stream) can drive the
//! `DigestTrailer` directly with the same guarantees.

use crate::hash::HashAccumulator;
use crate::hash::sha1_hex_of;
use crate::source::ByteSource;
use crate::source::SourceError;
use vstd::prelude::*;

verus! {

/// The number of trailer bytes: the length of the hexadecimal SHA-1 digest.
pub const TRAILER_LEN: usize = 40;

/// The tagged emission state: passing input through, delivering the trailer
/// with `offset` bytes already delivered, or finished.
enum TrailerPhase {
    Streaming,
    EmittingTrailer { trailer: Vec<u8>, offset: usize },
    Done,
}

/// Hash accumulator plus trailer emission state.
///
/// While streaming, `absorb` each delivered chunk; once the input reports
/// end-of-stream, `emit` delivers trailer bytes.  The transition to `Done`
/// happens in the same call that delivers the last trailer byte, and from
/// then on every `emit` returns zero bytes, forever.
pub struct DigestTrailer {
    hash: HashAccumulator,
    phase: TrailerPhase,
}

impl DigestTrailer {
    /// The input bytes absorbed so far; the trailer is their digest.
    pub closed spec fn fed(&self) -> Seq<u8> {
        self.hash.bytes_fed()
    }

    /// Still passing input bytes through; the digest is not yet finalized.
    pub closed spec fn streaming(&self) -> bool {
        self.phase is Streaming
    }

    /// The whole trailer has been delivered.
    pub closed spec fn done(&self) -> bool {
        self.phase is Done
    }

    /// The trailer bytes not yet delivered.
    pub closed spec fn pending(&self) -> Seq<u8> {
        match self.phase {
            TrailerPhase::Streaming => sha1_hex_of(self.fed()),
            TrailerPhase::EmittingTrailer { trailer, offset } => trailer@.skip(offset as int),
            TrailerPhase::Done => Seq::<u8>::empty(),
        }
    }

    pub closed spec fn inv(&self) -> bool {
        match self.phase {
            TrailerPhase::Streaming => true,
            TrailerPhase::EmittingTrailer { trailer, offset } => {
                &&& trailer@ == sha1_hex_of(self.fed())
                &&& trailer@.len() == TRAILER_LEN
                &&& offset < TRAILER_LEN
            },
            TrailerPhase::Done => true,
        }
    }

    /// What a driver of the bare trailer may rely on: while streaming the
    /// pending trailer is exactly the 40-character hex digest of the bytes
    /// absorbed so far, and once `Done` nothing is pending.
    pub proof fn lemma_pending_content(&self)
        requires
            self.inv(),
        ensures
            self.streaming() ==> self.pending() == sha1_hex_of(self.fed()),
            self.streaming() ==> self.pending().len() == 40,
            self.done() ==> self.pending().len() == 0,
    {
    }

    pub fn new() -> (r: DigestTrailer)
        ensures
            r.inv(),
            r.streaming(),
            r.fed() == Seq::<u8>::empty(),
    {
        DigestTrailer { hash: HashAccumulator::new(), phase: TrailerPhase::Streaming }
    }

    pub fn is_streaming(&self) -> (b: bool)
        ensures
            b == self.streaming(),
    {
        match self.phase {
            TrailerPhase::Streaming => true,
            _ => false,
        }
    }

    pub fn is_done(&self) -> (b: bool)
        ensures
            b == self.done(),
    {
        match self.phase {
            TrailerPhase::Done => true,
            _ => false,
        }
    }

    /// Feed one delivered chunk of original bytes into the digest.
    pub fn absorb(&mut self, chunk: &[u8])
        requires
            old(self).inv(),
            old(self).streaming(),
        ensures
            final(self).inv(),
            final(self).streaming(),
            final(self).fed() == old(self).fed() + chunk@,
    {
        self.hash.update(chunk);
    }

    /// Deliver up to `max` trailer bytes.
    ///
    /// The first call finalizes the digest; each call hands out the next
    /// `min(max, pending)` trailer bytes; the call that delivers the last
    /// byte also moves to `Done`, and in `Done` every call returns zero
    /// bytes and stays in `Done`.
    pub fn emit(&mut self, max: usize) -> (r: Vec<u8>)
        requires
            old(self).inv(),
        ensures
            final(self).inv(),
            !final(self).streaming(),
            final(self).fed() == old(self).fed(),
            old(self).streaming() ==> old(self).pending() == sha1_hex_of(old(self).fed()),
            r@.len() == vstd::math::min(max as int, old(self).pending().len() as int),
            r@ == old(self).pending().take(r@.len() as int),
            final(self).pending() == old(self).pending().skip(r@.len() as int),
            final(self).done() <==> final(self).pending().len() == 0,
            old(self).done() ==> final(self).done(),
    {
        let mut phase = TrailerPhase::Done;
        core::mem::swap(&mut phase, &mut self.phase);
        let (trailer, offset): (Vec<u8>, usize) = match phase {
            TrailerPhase::Streaming => (self.hash.hex_digest(), 0),
            TrailerPhase::EmittingTrailer { trailer, offset } => (trailer, offset),
            TrailerPhase::Done => {
                proof {
                    assert(old(self).pending().take(0) =~= Seq::<u8>::empty());
                    assert(old(self).pending().skip(0) =~= Seq::<u8>::empty());
                }
                return Vec::new();
            },
        };
        let left = TRAILER_LEN - offset;
        let k = if max < left {
            max
        } else {
            left
        };
        let mut out: Vec<u8> = Vec::new();
        let mut i: usize = 0;
        while i < k
            invariant
                i <= k,
                offset + k <= TRAILER_LEN,
                trailer@.len() == TRAILER_LEN,
                out@ == trailer@.subrange(offset as int, offset + i),
            decreases k - i,
        {
            out.push(trailer[offset + i]);
            i = i + 1;
        }
        let new_offset = offset + k;
        proof {
            assert(old(self).pending() =~= trailer@.skip(offset as int));
            assert(out@ =~= old(self).pending().take(k as int));
            assert(trailer@.skip(new_offset as int) =~= old(self).pending().skip(k as int));
        }
        if new_offset == TRAILER_LEN {
            self.phase = TrailerPhase::Done;
            proof {
                assert(trailer@.skip(new_offset as int) =~= Seq::<u8>::empty());
            }
        } else {
            self.phase = TrailerPhase::EmittingTrailer { trailer, offset: new_offset };
        }
        out
    }
}

/// Law: a full drain of a digest-trailing source delivers exactly the
/// input followed by its 40-character hex digest, however the pulls are
/// sized.  `states` are the values of `remaining()` before and after each
/// pull and `chunks` what the pulls delivered: the first state is what the
/// constructor establishes, each pull obeys the byte-source contract, and
/// the last state is empty because the drain is complete.
pub proof fn lemma_trailing_drain_content(
    input: Seq<u8>,
    states: Seq<Seq<u8>>,
    chunks: Seq<Seq<u8>>,
)
    requires
        states.len() == chunks.len() + 1,
        states.first() == input + sha1_hex_of(input),
        states.last().len() == 0,
        forall|i: int|
            0 <= i < chunks.len() ==> (#[trigger] chunks[i]).len() <= states[i].len() && chunks[i]
                == states[i].take(chunks[i].len() as int) && states[i + 1] == states[i].skip(
                chunks[i].len() as int,
            ),
    ensures
        crate::hash::concat_of(chunks) == input + sha1_hex_of(input),
{
    crate::source::lemma_pull_trace(states, chunks);
    assert(crate::hash::concat_of(chunks) =~= crate::hash::concat_of(chunks) + states.last());
}

/// Wraps a byte source, passing its bytes through while hashing them and
/// appending the 40-character hex digest as a trailer once it is exhausted.
/// Trailer delivery starts in the same pull that observes exhaustion.
pub struct DigestTrailingSource<S> {
    inner: S,
    trailer: DigestTrailer,
}

impl<S: ByteSource> DigestTrailingSource<S> {
    /// The trailer phase has begun: the wrapped source is exhausted, the
    /// digest is finalized, and only trailer bytes (possibly none) remain.
    pub closed spec fn trailing(&self) -> bool {
        !self.trailer.streaming()
    }

    /// The whole trailer has been delivered: the emission state is `Done`.
    pub closed spec fn finished(&self) -> bool {
        self.trailer.done()
    }

    /// Once `Done`, nothing remains: every further pull yields zero bytes.
    pub proof fn lemma_finished_is_empty(&self)
        requires
            self.finished(),
        ensures
            self.remaining().len() == 0,
    {
    }

    /// The stream this source delivers is the wrapped source's bytes
    /// followed by exactly their 40-character hex digest, however the
    /// consumer's pulls are sized.
    pub fn new(inner: S) -> (r: DigestTrailingSource<S>)
        requires
            inner.inv(),
        ensures
            r.inv(),
            r.remaining() == inner.remaining() + sha1_hex_of(inner.remaining()),
            r.remaining().len() == inner.remaining().len() + TRAILER_LEN,
    {
        let r = DigestTrailingSource { inner, trailer: DigestTrailer::new() };
        proof {
            assert(r.trailer.fed() + r.inner.remaining() =~= r.inner.remaining());
        }
        r
    }
}

impl<S: ByteSource> ByteSource for DigestTrailingSource<S> {
    closed spec fn remaining(&self) -> Seq<u8> {
        if self.trailer.streaming() {
            self.inner.remaining() + sha1_hex_of(self.trailer.fed() + self.inner.remaining())
        } else {
            self.trailer.pending()
        }
    }

    closed spec fn inv(&self) -> bool {
        self.inner.inv() && self.trailer.inv()
    }

    /// A zero-length pull always succeeds, delivering nothing.  Only the
    /// streaming phase can fail, and only because the wrapped source did;
    /// once the trailer phase has begun every pull succeeds and delivers
    /// exactly `min(max, remaining)` bytes, so once the trailer has been
    /// fully delivered, every further pull cleanly returns zero bytes,
    /// never an error, forever.
    fn pull(&mut self, max: usize) -> (r: Result<Vec<u8>, SourceError>)
        ensures
            max == 0 ==> r is Ok,
            old(self).trailing() ==> (r matches Ok(chunk) && chunk@.len() == vstd::math::min(
                max as int,
                old(self).remaining().len() as int,
            )),
            old(self).trailing() ==> final(self).trailing(),
            old(self).finished() ==> (r matches Ok(chunk) && chunk@.len() == 0
                && final(self).finished()),
    {
        if max == 0 {
            proof {
                assert(old(self).remaining().take(0) =~= Seq::<u8>::empty());
                assert(old(self).remaining().skip(0) =~= old(self).remaining());
            }
            return Ok(Vec::new());
        }
        if self.trailer.is_streaming() {
            let ghost fed0 = self.trailer.fed();
            let ghost rem0 = self.inner.remaining();
            match self.inner.pull(max) {
                Err(e) => Err(e),
                Ok(chunk) => {
                    let ghost k = chunk@.len() as int;
                    if chunk.len() > 0 {
                        self.trailer.absorb(chunk.as_slice());
                        proof {
                            assert(rem0 =~= rem0.take(k) + rem0.skip(k));
                            assert(self.trailer.fed() + self.inner.remaining() =~= fed0 + rem0);
                            assert(chunk@ =~= old(self).remaining().take(k));
                            assert(self.remaining() =~= old(self).remaining().skip(k));
                        }
                        Ok(chunk)
                    } else {
                        // The wrapped source is exhausted: finalize and start
                        // delivering the trailer in this same pull.
                        proof {
                            assert(fed0 + rem0 =~= fed0);
                            assert(old(self).remaining() =~= sha1_hex_of(fed0));
                        }
                        let out = self.trailer.emit(max);
                        Ok(out)
                    }
                },
            }
        } else {
            let out = self.trailer.emit(max);
            Ok(out)
        }
    }
}

} // verus!
