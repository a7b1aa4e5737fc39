//! The hash backend abstraction: one incremental-update capability over
//! three independently sourced Blake2b-256 implementations.

pub mod rfc;
pub mod rust_crypto;
pub mod simd;

use vstd::prelude::*;
use crate::hasher::rfc::Rfc;
use crate::hasher::rust_crypto::RustCrypto;
use crate::hasher::simd::Simd;

verus! {

/// Length in bytes of every digest the backends emit (256 bits).
pub const OUTPUT_LENGTH: usize = 32;

/// The Blake2b hash function with a 256-bit digest, as a mathematical
/// function of the whole input byte sequence. Every backend computes this
/// same function; its value on given bytes is only observable by running
/// one of them.
pub uninterp spec fn blake2b256(data: Seq<u8>) -> Seq<u8>;

/// Incremental hashing: feed byte slices in order, then finalize once.
/// `fed` is the concatenation of all bytes fed so far; the digest depends
/// on that sequence alone, not on how it was cut into slices.
pub trait SlicedHashUpdate: Sized {
    spec fn fed(&self) -> Seq<u8>;

    fn update_with_slice(&mut self, data: &[u8])
        ensures
            final(self).fed() == old(self).fed() + data@,
    ;

    fn finalize_into(self, output: &mut [u8; OUTPUT_LENGTH])
        ensures
            final(output)@ == blake2b256(self.fed()),
    ;
}

/// Which of the three backend implementations a hasher value carries.
#[derive(Clone, Copy, PartialEq, Eq, Structural, Debug)]
pub enum BackendKind {
    RustCrypto,
    Rfc,
    Simd,
}

/// A hash backend: one of the three concrete Blake2b-256 implementations,
/// dispatched by pattern matching.
pub enum Blake2bHasher {
    RustCrypto(RustCrypto),
    Rfc(Rfc),
    Simd(Simd),
}

impl Blake2bHasher {
    pub open spec fn kind(&self) -> BackendKind {
        match self {
            Blake2bHasher::RustCrypto(_) => BackendKind::RustCrypto,
            Blake2bHasher::Rfc(_) => BackendKind::Rfc,
            Blake2bHasher::Simd(_) => BackendKind::Simd,
        }
    }

    pub fn new_rfc() -> (r: Blake2bHasher)
        ensures
            r.fed() == Seq::<u8>::empty(),
            r.kind() == BackendKind::Rfc,
    {
        Blake2bHasher::Rfc(Default::default())
    }

    pub fn new_rust_crypto() -> (r: Blake2bHasher)
        ensures
            r.fed() == Seq::<u8>::empty(),
            r.kind() == BackendKind::RustCrypto,
    {
        Blake2bHasher::RustCrypto(Default::default())
    }

    pub fn new_simd() -> (r: Blake2bHasher)
        ensures
            r.fed() == Seq::<u8>::empty(),
            r.kind() == BackendKind::Simd,
    {
        Blake2bHasher::Simd(Default::default())
    }

    /// A fresh instance of the same backend variant, in its initial state:
    /// each trial constructs one through the variant's factory.
    pub fn fresh(&self) -> (r: Blake2bHasher)
        ensures
            r.fed() == Seq::<u8>::empty(),
            r.kind() == self.kind(),
    {
        match self {
            Blake2bHasher::RustCrypto(_) => Self::new_rust_crypto(),
            Blake2bHasher::Rfc(_) => Self::new_rfc(),
            Blake2bHasher::Simd(_) => Self::new_simd(),
        }
    }
}

/// Determinism: one backend variant, fed the same byte sequence twice,
/// finalizes both times to the same digest.
pub proof fn lemma_same_backend_deterministic(a: Blake2bHasher, b: Blake2bHasher)
    requires
        a.kind() == b.kind(),
        a.fed() == b.fed(),
    ensures
        blake2b256(a.fed()) == blake2b256(b.fed()),
{
}

/// Cross-backend agreement: any two backend instances that were fed the
/// same byte sequence finalize to the same digest, whatever their
/// variants — the digest `finalize_into` writes is `blake2b256` of the
/// bytes fed, and of nothing else.
pub proof fn lemma_cross_backend_agreement(a: Blake2bHasher, b: Blake2bHasher)
    requires
        a.fed() == b.fed(),
    ensures
        blake2b256(a.fed()) == blake2b256(b.fed()),
{
}

/// Chunk-boundary independence: cutting the same bytes into slices
/// differently before feeding them changes nothing — the fed sequences
/// are equal as sequences, so the digests are equal.
pub proof fn lemma_chunk_boundary_independence(fed: Seq<u8>, p1: Seq<u8>, p2: Seq<u8>)
    ensures
        blake2b256(fed + (p1 + p2)) == blake2b256((fed + p1) + p2),
{
    assert(fed + (p1 + p2) =~= (fed + p1) + p2);
}

impl SlicedHashUpdate for Blake2bHasher {
    closed spec fn fed(&self) -> Seq<u8> {
        match self {
            Blake2bHasher::RustCrypto(h) => h.fed(),
            Blake2bHasher::Rfc(h) => h.fed(),
            Blake2bHasher::Simd(h) => h.fed(),
        }
    }

    fn update_with_slice(&mut self, data: &[u8])
        ensures
            final(self).kind() == old(self).kind(),
    {
        match self {
            Blake2bHasher::RustCrypto(h) => h.update_with_slice(data),
            Blake2bHasher::Rfc(h) => h.update_with_slice(data),
            Blake2bHasher::Simd(h) => h.update_with_slice(data),
        }
    }

    fn finalize_into(self, output: &mut [u8; OUTPUT_LENGTH]) {
        match self {
            Blake2bHasher::RustCrypto(h) => h.finalize_into(output),
            Blake2bHasher::Rfc(h) => h.finalize_into(output),
            Blake2bHasher::Simd(h) => h.finalize_into(output),
        }
    }
}

} // verus!
