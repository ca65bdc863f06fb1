//! The app-hash accumulator: a single long-lived SHA-256 state fed, in
//! delivery order, with the hash of every integrity-valid transaction. The
//! digest is read non-destructively at each commit, so the app-hash is a
//! running digest over the whole chain history (the accumulator is never
//! reset between blocks).

use vstd::prelude::*;

use crate::digest::{absorbed, digest_absorb, digest_new, digest_snapshot, sha256_chain, DigestState};

verus! {

/// Deterministic rolling digest over delivered transaction hashes.
///
/// Its view is the sequence of absorbed chunks, in absorption order; the
/// externally visible app-hash is `sha256_chain` of that view.
pub struct AppHashAccumulator {
    state: DigestState,
}

impl View for AppHashAccumulator {
    type V = Seq<Seq<char>>;

    closed spec fn view(&self) -> Seq<Seq<char>> {
        absorbed(self.state)
    }
}

impl AppHashAccumulator {
    /// A fresh accumulator that has absorbed nothing.
    pub fn new() -> (acc: AppHashAccumulator)
        ensures
            acc@ == Seq::<Seq<char>>::empty(),
    {
        AppHashAccumulator { state: digest_new() }
    }

    /// Absorb one transaction hash after everything absorbed before it.
    pub fn absorb(&mut self, chunk: &str)
        ensures
            final(self)@ == old(self)@.push(chunk@),
    {
        digest_absorb(&mut self.state, chunk);
    }

    /// The 32-byte digest of everything absorbed so far; the accumulator
    /// itself is left untouched.
    pub fn current_digest(&self) -> (out: Vec<u8>)
        ensures
            out@ == sha256_chain(self@),
            out@.len() == 32,
    {
        digest_snapshot(&self.state)
    }
}

/// Delivering the same ordered sequence of transaction hashes on two
/// independent accumulator instances yields identical app-hashes: the digest
/// is a function of the absorbed sequence alone.
pub proof fn lemma_app_hash_deterministic(a: AppHashAccumulator, b: AppHashAccumulator)
    requires
        a@ == b@,
    ensures
        sha256_chain(a@) == sha256_chain(b@),
{
}

} // verus!
