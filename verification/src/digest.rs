//! Trusted boundary around the SHA-256 implementation of the sha2 crate.
//!
//! The rolling hasher is modelled by the sequence of chunks absorbed so far;
//! what the digest of a given chunk sequence is stays an uninterpreted name,
//! since nothing short of the full SHA-256 specification could pin it down.

use vstd::prelude::*;

verus! {

/// A rolling SHA-256 state. The hasher of the sha2 crate is held opaquely;
/// verified code reaches it only through the trusted operations below.
#[verifier::external_body]
pub struct DigestState {
    inner: sha2::Sha256,
}

/// The chunks absorbed into a hasher state so far, in absorption order.
pub uninterp spec fn absorbed(d: DigestState) -> Seq<Seq<char>>;

/// The SHA-256 digest of a sequence of absorbed chunks. A pure function of
/// the chunk sequence alone: the same chunks in the same order give the same
/// digest on every replica.
pub uninterp spec fn sha256_chain(chunks: Seq<Seq<char>>) -> Seq<u8>;

/// Relies on sha2::Sha256::new (Digest::new): a fresh hasher has absorbed
/// nothing.
#[verifier::external_body]
pub fn digest_new() -> (d: DigestState)
    ensures
        absorbed(d) == Seq::<Seq<char>>::empty(),
{
    DigestState { inner: <sha2::Sha256 as sha2::Digest>::new() }
}

/// Relies on sha2's Digest::update: absorbs the bytes of `chunk` after
/// everything absorbed before it.
#[verifier::external_body]
pub fn digest_absorb(d: &mut DigestState, chunk: &str)
    ensures
        absorbed(*final(d)) == absorbed(*old(d)).push(chunk@),
{
    <sha2::Sha256 as sha2::Digest>::update(&mut d.inner, chunk.as_bytes());
}

/// Relies on sha2's Digest::finalize, run on a clone of the hasher: returns
/// the 32-byte digest of everything absorbed so far and leaves the hasher
/// itself untouched.
#[verifier::external_body]
pub fn digest_snapshot(d: &DigestState) -> (out: Vec<u8>)
    ensures
        out@ == sha256_chain(absorbed(*d)),
        out@.len() == 32,
{
    <sha2::Sha256 as sha2::Digest>::finalize(d.inner.clone()).to_vec()
}

} // verus!
