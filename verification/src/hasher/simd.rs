//! The vectorized backend, built on the blake2b_simd crate.

use vstd::prelude::*;
use crate::hasher::{blake2b256, SlicedHashUpdate, OUTPUT_LENGTH};

verus! {

/// Declares blake2b_simd's incremental hash state so that a field and a
/// wrapper signature can carry it; Verus treats a value of it as opaque.
#[verifier::external_type_specification]
#[verifier::external_body]
pub struct ExBlake2bSimdState(blake2b_simd::State);

/// Relies on blake2b_simd::Params::to_state, with hash_length set to
/// `OUTPUT_LENGTH`: a fresh Blake2b state for a 32-byte digest, nothing fed.
#[verifier::external_body]
fn new_simd_state() -> blake2b_simd::State {
    let mut hasher_params = blake2b_simd::Params::new();
    hasher_params.hash_length(OUTPUT_LENGTH);
    hasher_params.to_state()
}

/// The vectorized backend: blake2b_simd's state restricted to a 32-byte
/// digest, alongside the byte sequence fed to it so far.
pub struct Simd {
    inner: blake2b_simd::State,
    fed_bytes: Ghost<Seq<u8>>,
}

impl Default for Simd {
    fn default() -> (r: Self)
        ensures
            r.fed() == Seq::<u8>::empty(),
    {
        Simd { inner: new_simd_state(), fed_bytes: Ghost(Seq::empty()) }
    }
}

/// Relies on blake2b_simd::State::update: feeds `data` into the running
/// Blake2b state, extending the hashed byte sequence.
#[verifier::external_body]
fn simd_update(h: &mut Simd, data: &[u8])
    ensures
        final(h).fed() == old(h).fed() + data@,
{
    h.inner.update(data);
}

/// Relies on blake2b_simd::State::finalize: the Blake2b-256 digest of
/// every byte fed, copied out of the returned hash value.
#[verifier::external_body]
fn simd_finalize(h: Simd, output: &mut [u8; OUTPUT_LENGTH])
    ensures
        final(output)@ == blake2b256(h.fed()),
{
    output.copy_from_slice(h.inner.finalize().as_bytes());
}

impl SlicedHashUpdate for Simd {
    closed spec fn fed(&self) -> Seq<u8> {
        self.fed_bytes@
    }

    fn update_with_slice(&mut self, data: &[u8]) {
        simd_update(self, data);
    }

    fn finalize_into(self, output: &mut [u8; OUTPUT_LENGTH]) {
        simd_finalize(self, output);
    }
}

} // verus!
