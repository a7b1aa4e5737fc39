//! The RFC-style backend, built on the blake2-rfc crate.

use vstd::prelude::*;
use crate::hasher::{blake2b256, SlicedHashUpdate, OUTPUT_LENGTH};

verus! {

/// Declares blake2_rfc's incremental Blake2b state so that a field and a
/// wrapper signature can carry it; Verus treats a value of it as opaque.
#[verifier::external_type_specification]
#[verifier::external_body]
pub struct ExBlake2bRfcState(blake2_rfc::blake2b::Blake2b);

/// Relies on blake2_rfc::blake2b::Blake2b::new: a fresh Blake2b state
/// configured to emit a digest of `OUTPUT_LENGTH` bytes, with nothing fed.
#[verifier::external_body]
fn new_rfc_state() -> blake2_rfc::blake2b::Blake2b {
    blake2_rfc::blake2b::Blake2b::new(OUTPUT_LENGTH)
}

/// The RFC-style backend: blake2_rfc's Blake2b state restricted to a
/// 32-byte digest, alongside the byte sequence fed to it so far.
pub struct Rfc {
    inner: blake2_rfc::blake2b::Blake2b,
    fed_bytes: Ghost<Seq<u8>>,
}

impl Default for Rfc {
    fn default() -> (r: Self)
        ensures
            r.fed() == Seq::<u8>::empty(),
    {
        Rfc { inner: new_rfc_state(), fed_bytes: Ghost(Seq::empty()) }
    }
}

/// Relies on blake2_rfc::blake2b::Blake2b::update: feeds `data` into the
/// running Blake2b state, extending the hashed byte sequence.
#[verifier::external_body]
fn rfc_update(h: &mut Rfc, data: &[u8])
    ensures
        final(h).fed() == old(h).fed() + data@,
{
    h.inner.update(data);
}

/// Relies on blake2_rfc::blake2b::Blake2b::finalize: the Blake2b-256
/// digest of every byte fed, copied out of the returned result.
#[verifier::external_body]
fn rfc_finalize(h: Rfc, output: &mut [u8; OUTPUT_LENGTH])
    ensures
        final(output)@ == blake2b256(h.fed()),
{
    output.copy_from_slice(h.inner.finalize().as_bytes());
}

impl SlicedHashUpdate for Rfc {
    closed spec fn fed(&self) -> Seq<u8> {
        self.fed_bytes@
    }

    fn update_with_slice(&mut self, data: &[u8]) {
        rfc_update(self, data);
    }

    fn finalize_into(self, output: &mut [u8; OUTPUT_LENGTH]) {
        rfc_finalize(self, output);
    }
}

} // verus!
