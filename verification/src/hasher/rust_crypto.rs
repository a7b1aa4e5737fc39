//! The RustCrypto backend, built on the blake2 crate.

use vstd::prelude::*;
use crate::hasher::{blake2b256, SlicedHashUpdate, OUTPUT_LENGTH};
use digest::{Update, VariableOutput};

verus! {

/// Declares blake2's variable-output Blake2b state so that a field and a
/// wrapper signature can carry it; Verus treats a value of it as opaque.
#[verifier::external_type_specification]
#[verifier::external_body]
pub struct ExVarBlake2b(blake2::VarBlake2b);

/// Relies on blake2::VarBlake2b::new (digest::VariableOutput): a fresh
/// Blake2b state for a digest of `OUTPUT_LENGTH` bytes, with nothing fed;
/// 32 is a valid output size for Blake2b, so the call cannot fail.
#[verifier::external_body]
fn new_rust_crypto_state() -> blake2::VarBlake2b {
    blake2::VarBlake2b::new(OUTPUT_LENGTH).unwrap()
}

/// The RustCrypto backend: blake2's Blake2b state restricted to a 32-byte
/// digest, alongside the byte sequence fed to it so far.
pub struct RustCrypto {
    inner: blake2::VarBlake2b,
    fed_bytes: Ghost<Seq<u8>>,
}

impl Default for RustCrypto {
    fn default() -> (r: Self)
        ensures
            r.fed() == Seq::<u8>::empty(),
    {
        RustCrypto { inner: new_rust_crypto_state(), fed_bytes: Ghost(Seq::empty()) }
    }
}

/// Relies on digest::Update::update for blake2::VarBlake2b: feeds `data`
/// into the running Blake2b state, extending the hashed byte sequence.
#[verifier::external_body]
fn rust_crypto_update(h: &mut RustCrypto, data: &[u8])
    ensures
        final(h).fed() == old(h).fed() + data@,
{
    h.inner.update(data);
}

/// Relies on digest::VariableOutput::finalize_variable for
/// blake2::VarBlake2b: the Blake2b-256 digest of every byte fed, handed to
/// the closure, which only copies it into `output`.
#[verifier::external_body]
fn rust_crypto_finalize(h: RustCrypto, output: &mut [u8; OUTPUT_LENGTH])
    ensures
        final(output)@ == blake2b256(h.fed()),
{
    h.inner.finalize_variable(|digest_bytes| output.copy_from_slice(digest_bytes));
}

impl SlicedHashUpdate for RustCrypto {
    closed spec fn fed(&self) -> Seq<u8> {
        self.fed_bytes@
    }

    fn update_with_slice(&mut self, data: &[u8]) {
        rust_crypto_update(self, data);
    }

    fn finalize_into(self, output: &mut [u8; OUTPUT_LENGTH]) {
        rust_crypto_finalize(self, output);
    }
}

} // verus!
