//! SHA-256 digest accumulation over a byte source, in bounded chunks.
//!
//! The accumulator consumes a byte source of unbounded length in
//! chunks and produces one fixed-length digest covering every byte
//! exactly once, in order. The digest is a function of the full byte
//! sequence alone: how the bytes were split into chunks leaves no
//! trace in the result.

use vstd::prelude::*;
use vstd::slice::slice_subrange;

verus! {

/// The SHA-256 digest of a byte sequence: a function of the bytes
/// alone, the same on every machine. The hash itself is computed by
/// `ring`; this name only identifies its result.
pub uninterp spec fn sha256_of(b: Seq<u8>) -> Seq<u8>;

/// The bytes a `ring` digest context has consumed so far, in order.
pub uninterp spec fn fed_bytes(c: ring::digest::Context) -> Seq<u8>;

/// Whether a `ring` digest context was constructed for the SHA-256
/// algorithm.
pub uninterp spec fn is_sha256_context(c: ring::digest::Context) -> bool;

#[verifier::external_type_specification]
#[verifier::external_body]
pub struct ExContext(ring::digest::Context);

/// SHA-256 reads at most 2^61 - 1 bytes; stay comfortably below, so
/// that finalizing the digest can never fail on input length.
pub const MAX_DIGEST_INPUT_BYTES: u64 = 0x1000_0000_0000_0000;

/// Relies on ring::digest::Context::new with ring::digest::SHA256: a
/// fresh context, for SHA-256, that has consumed nothing.
#[verifier::external_body]
fn sha256_context_new() -> (c: ring::digest::Context)
    ensures
        is_sha256_context(c),
        fed_bytes(c) == Seq::<u8>::empty(),
{
    ring::digest::Context::new(&ring::digest::SHA256)
}

/// Relies on ring::digest::Context::update: extends what the context
/// has consumed by exactly `data`, keeping its algorithm.
#[verifier::external_body]
fn sha256_context_update(c: &mut ring::digest::Context, data: &[u8])
    ensures
        is_sha256_context(*final(c)) == is_sha256_context(*old(c)),
        fed_bytes(*final(c)) == fed_bytes(*old(c)) + data@,
{
    c.update(data);
}

/// Relies on ring::digest::Context::finish with the SHA-256 algorithm:
/// the 32-byte digest of everything the context consumed. `finish`
/// fails only when the consumed length exceeds the algorithm's limit,
/// which the length bound rules out.
#[verifier::external_body]
fn sha256_context_finish(c: ring::digest::Context) -> (r: Vec<u8>)
    requires
        is_sha256_context(c),
        fed_bytes(c).len() <= MAX_DIGEST_INPUT_BYTES,
    ensures
        r@ == sha256_of(fed_bytes(c)),
        r@.len() == 32,
{
    c.finish().as_ref().to_vec()
}

/// Streaming digest state for the file and stream paths: bytes arrive
/// in chunks of any size; the final digest depends only on their
/// concatenation.
pub struct DigestAccumulator {
    ctx: ring::digest::Context,
}

impl DigestAccumulator {
    /// The bytes consumed so far, in the order they were fed.
    pub closed spec fn consumed(self) -> Seq<u8> {
        fed_bytes(self.ctx)
    }

    pub closed spec fn wf(self) -> bool {
        is_sha256_context(self.ctx)
    }

    /// A fresh accumulator that has consumed nothing.
    pub fn new() -> (r: Self)
        ensures
            r.wf(),
            r.consumed() == Seq::<u8>::empty(),
    {
        DigestAccumulator { ctx: sha256_context_new() }
    }

    /// Feed one chunk: consumption is extended by exactly that chunk,
    /// no byte skipped and none duplicated.
    pub fn update(&mut self, chunk: &[u8])
        requires
            old(self).wf(),
        ensures
            final(self).wf(),
            final(self).consumed() == old(self).consumed() + chunk@,
    {
        sha256_context_update(&mut self.ctx, chunk);
    }

    /// Finalize: the digest of everything consumed.
    pub fn finish(self) -> (r: Vec<u8>)
        requires
            self.wf(),
            self.consumed().len() <= MAX_DIGEST_INPUT_BYTES,
        ensures
            r@ == sha256_of(self.consumed()),
            r@.len() == 32,
    {
        sha256_context_finish(self.ctx)
    }
}

/// The read-chunk size of the accumulation loop.
pub const DIGEST_CHUNK_BYTES: usize = 1024;

/// Digest of a byte slice, computed by feeding fixed-size chunks to
/// the accumulator: equal to the digest of the whole sequence in one
/// shot, whatever the chunk boundaries fall on.
pub fn digest_of_bytes(data: &[u8]) -> (r: Vec<u8>)
    requires
        data@.len() <= MAX_DIGEST_INPUT_BYTES,
    ensures
        r@ == sha256_of(data@),
        r@.len() == 32,
{
    let mut acc = DigestAccumulator::new();
    let len: usize = data.len();
    let mut i: usize = 0;
    while i < len
        invariant
            acc.wf(),
            i <= len,
            len == data@.len(),
            acc.consumed() == data@.subrange(0, i as int),
        decreases len - i,
    {
        let j: usize = if len - i < DIGEST_CHUNK_BYTES {
            len
        } else {
            i + DIGEST_CHUNK_BYTES
        };
        let chunk = slice_subrange(data, i, j);
        acc.update(chunk);
        proof {
            assert(data@.subrange(0, j as int) =~= data@.subrange(0, i as int) + data@.subrange(
                i as int,
                j as int,
            ));
        }
        i = j;
    }
    proof {
        assert(data@.subrange(0, len as int) =~= data@);
    }
    acc.finish()
}

/// The concatenation of a sequence of chunks, in order.
pub open spec fn concat_of(chunks: Seq<Seq<u8>>) -> Seq<u8>
    decreases chunks.len(),
{
    if chunks.len() == 0 {
        Seq::empty()
    } else {
        concat_of(chunks.drop_last()) + chunks.last()
    }
}

/// Digest of content already split into chunks of arbitrary sizes:
/// equal to the digest of the chunks' concatenation.
pub fn digest_of_chunks(chunks: &Vec<Vec<u8>>) -> (r: Vec<u8>)
    requires
        concat_of(chunks.deep_view()).len() <= MAX_DIGEST_INPUT_BYTES,
    ensures
        r@ == sha256_of(concat_of(chunks.deep_view())),
        r@.len() == 32,
{
    let mut acc = DigestAccumulator::new();
    let n: usize = chunks.len();
    let mut k: usize = 0;
    while k < n
        invariant
            acc.wf(),
            k <= n,
            n == chunks@.len(),
            acc.consumed() == concat_of(chunks.deep_view().subrange(0, k as int)),
        decreases n - k,
    {
        acc.update(chunks[k].as_slice());
        proof {
            let dv = chunks.deep_view();
            assert(dv.subrange(0, k + 1).drop_last() =~= dv.subrange(0, k as int));
            assert(dv.subrange(0, k + 1).last() == dv[k as int]);
            assert(dv[k as int] == chunks@[k as int]@);
        }
        k = k + 1;
    }
    proof {
        assert(chunks.deep_view().subrange(0, n as int) =~= chunks.deep_view());
    }
    acc.finish()
}

/// Chunk-boundary fidelity: two ways of splitting the same content
/// into chunks feed the digest the same byte sequence, so the digest
/// is the same — accumulation depends only on the concatenation.
pub proof fn lemma_chunking_leaves_no_trace(a: Seq<Seq<u8>>, b: Seq<Seq<u8>>)
    requires
        concat_of(a) == concat_of(b),
    ensures
        sha256_of(concat_of(a)) == sha256_of(concat_of(b)),
{
}

} // verus!
