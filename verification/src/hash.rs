//! Incremental SHA-1 accumulator.
//!
//! The hash state is modelled by the sequence of bytes fed so far; the
//! 40-character lowercase hexadecimal digest is a pure function of that
//! sequence.  The SHA-1 compression itself is done by the `sha1` crate and
//! is left uninterpreted: only the digest's shape (40 lowercase hex digits
//! of the 20 digest bytes) is stated.

use vstd::prelude::*;

verus! {

#[verifier::external_type_specification]
#[verifier::external_body]
pub struct ExSha1(sha1::Sha1);

/// The bytes fed so far into a SHA-1 hash state.
pub uninterp spec fn sha1_fed(h: sha1::Sha1) -> Seq<u8>;

/// The i-th of the 20 bytes of the SHA-1 digest of `data`.
pub uninterp spec fn sha1_digest_byte(data: Seq<u8>, i: int) -> u8;

/// The lowercase hexadecimal digit for a value below 16, as an ASCII byte.
pub open spec fn lower_hex_digit(v: u8) -> u8
    recommends
        v < 16,
{
    if v < 10 {
        (v + 48) as u8
    } else {
        (v + 87) as u8
    }
}

/// The 40-character lowercase hexadecimal SHA-1 digest of `data`, as ASCII
/// bytes: two hex digits for each of the 20 digest bytes.
pub open spec fn sha1_hex_of(data: Seq<u8>) -> Seq<u8> {
    Seq::new(
        40,
        |i: int|
            if i % 2 == 0 {
                lower_hex_digit((sha1_digest_byte(data, i / 2) >> 4) as u8)
            } else {
                lower_hex_digit((sha1_digest_byte(data, i / 2) & 0xf) as u8)
            },
    )
}

/// Whether a byte is an ASCII lowercase hexadecimal digit.
pub open spec fn is_lower_hex_digit(b: u8) -> bool {
    (48 <= b && b <= 57) || (97 <= b && b <= 102)
}

/// The hex digest always has exactly 40 characters, all lowercase hex digits.
pub proof fn lemma_sha1_hex_shape(data: Seq<u8>)
    ensures
        sha1_hex_of(data).len() == 40,
        forall|i: int| 0 <= i < 40 ==> is_lower_hex_digit(#[trigger] sha1_hex_of(data)[i]),
{
    assert forall|i: int| 0 <= i < 40 implies is_lower_hex_digit(#[trigger] sha1_hex_of(data)[i]) by {
        let b = sha1_digest_byte(data, i / 2);
        assert(b >> 4 < 16) by (bit_vector);
        assert(b & 0xf < 16) by (bit_vector);
    }
}

/// Relies on sha1::Sha1::new: a fresh hash state has been fed no bytes.
#[verifier::external_body]
fn sha1_new() -> (h: sha1::Sha1)
    ensures
        sha1_fed(h) == Seq::<u8>::empty(),
{
    sha1::Sha1::new()
}

/// Relies on sha1::Sha1::update: feeding bytes appends them to the hashed input.
#[verifier::external_body]
fn sha1_update(h: &mut sha1::Sha1, data: &[u8])
    ensures
        sha1_fed(*final(h)) == sha1_fed(*old(h)) + data@,
{
    h.update(data);
}

/// Relies on sha1::Sha1::digest and the hex rendering of sha1::Digest: the
/// digest of the bytes fed so far, shown as 40 lowercase hexadecimal digits
/// (two per digest byte, big-endian), without consuming the state.  The
/// second clause restates the first digit of each pair directly in terms of
/// the digest bytes.
#[verifier::external_body]
fn sha1_hex_bytes(h: &sha1::Sha1) -> (r: Vec<u8>)
    ensures
        r@ == sha1_hex_of(sha1_fed(*h)),
        forall|i: int|
            0 <= i < 20 ==> r@[2 * i] == lower_hex_digit(
                (#[trigger] sha1_digest_byte(sha1_fed(*h), i) >> 4) as u8,
            ),
{
    h.digest().to_string().into_bytes()
}

/// Incremental digest state: created empty, updated with each chunk of
/// original bytes, finalized to a 40-character lowercase hex string.
/// Finalizing does not consume the state, so repeating it returns the same
/// digest, and hashing never fails.
pub struct HashAccumulator {
    inner: sha1::Sha1,
}

impl HashAccumulator {
    /// The bytes fed so far; the digest is a pure function of this sequence.
    pub closed spec fn bytes_fed(&self) -> Seq<u8> {
        sha1_fed(self.inner)
    }

    pub fn new() -> (r: HashAccumulator)
        ensures
            r.bytes_fed() == Seq::<u8>::empty(),
    {
        HashAccumulator { inner: sha1_new() }
    }

    /// Folds `data` into the digest state; a zero-length chunk is a no-op.
    pub fn update(&mut self, data: &[u8])
        ensures
            final(self).bytes_fed() == old(self).bytes_fed() + data@,
    {
        sha1_update(&mut self.inner, data);
    }

    /// The 40-character lowercase hexadecimal digest of all bytes fed so far.
    pub fn hex_digest(&self) -> (r: Vec<u8>)
        ensures
            r@ == sha1_hex_of(self.bytes_fed()),
            r@.len() == 40,
            forall|i: int| 0 <= i < 40 ==> is_lower_hex_digit(#[trigger] r@[i]),
    {
        let r = sha1_hex_bytes(&self.inner);
        proof {
            lemma_sha1_hex_shape(self.bytes_fed());
        }
        r
    }
}

/// One-shot digest of a whole in-memory buffer.
pub fn sha1_hex_digest_of(data: &[u8]) -> (r: Vec<u8>)
    ensures
        r@ == sha1_hex_of(data@),
        r@.len() == 40,
{
    let mut acc = HashAccumulator::new();
    acc.update(data);
    proof {
        assert(acc.bytes_fed() =~= data@);
    }
    acc.hex_digest()
}

/// The concatenation of a sequence of chunks.
pub open spec fn concat_of(chunks: Seq<Seq<u8>>) -> Seq<u8>
    decreases chunks.len(),
{
    if chunks.len() == 0 {
        Seq::<u8>::empty()
    } else {
        concat_of(chunks.drop_last()) + chunks.last()
    }
}

/// Law: the digest is chunking-invariant.  An accumulator fed an input in
/// arbitrarily chosen chunk sizes holds exactly the concatenation of those
/// chunks (by the contract of `update`), and two chunkings with the same
/// concatenation yield the same digest.
pub proof fn lemma_digest_chunking_invariance(a: Seq<Seq<u8>>, b: Seq<Seq<u8>>)
    requires
        concat_of(a) == concat_of(b),
    ensures
        sha1_hex_of(concat_of(a)) == sha1_hex_of(concat_of(b)),
{
}

} // verus!
