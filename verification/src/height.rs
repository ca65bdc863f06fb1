//! The height ledger: the persisted monotonic block-height counter, the sole
//! source of truth for "last committed height" across process restarts.
//!
//! The ledger itself is pure state: it decides what the persisted bytes mean
//! and which bytes must be durably written at each step. The caller performs
//! the actual file I/O, writing the returned bytes before acknowledging a
//! commit, and must treat a decoding failure as fatal: a corrupted height
//! must never be silently accepted, since it could cause a fork.

use vstd::prelude::*;

verus! {

/// The persisted form of a height: its 64 bits as 8 little-endian bytes
/// (the layout a bincode-encoded `i64` has on disk).
pub open spec fn spec_height_bytes(h: i64) -> Seq<u8> {
    let u = h as u64;
    seq![
        (u & 0xff) as u8,
        ((u >> 8) & 0xff) as u8,
        ((u >> 16) & 0xff) as u8,
        ((u >> 24) & 0xff) as u8,
        ((u >> 32) & 0xff) as u8,
        ((u >> 40) & 0xff) as u8,
        ((u >> 48) & 0xff) as u8,
        ((u >> 56) & 0xff) as u8,
    ]
}

/// The height 8 little-endian bytes denote.
pub open spec fn spec_decode_height(bytes: Seq<u8>) -> i64
    recommends
        bytes.len() == 8,
{
    ((bytes[0] as u64) | ((bytes[1] as u64) << 8) | ((bytes[2] as u64) << 16) | ((
    bytes[3] as u64) << 24) | ((bytes[4] as u64) << 32) | ((bytes[5] as u64) << 40) | ((
    bytes[6] as u64) << 48) | ((bytes[7] as u64) << 56)) as i64
}

/// Encode a height in its persisted form.
pub fn encode_height(h: i64) -> (out: Vec<u8>)
    ensures
        out@ == spec_height_bytes(h),
{
    let u = h as u64;
    let mut out: Vec<u8> = Vec::new();
    out.push((u & 0xff) as u8);
    out.push(((u >> 8) & 0xff) as u8);
    out.push(((u >> 16) & 0xff) as u8);
    out.push(((u >> 24) & 0xff) as u8);
    out.push(((u >> 32) & 0xff) as u8);
    out.push(((u >> 40) & 0xff) as u8);
    out.push(((u >> 48) & 0xff) as u8);
    out.push(((u >> 56) & 0xff) as u8);
    proof {
        assert(out@ =~= spec_height_bytes(h));
    }
    out
}

/// Decode a persisted height; `None` exactly when the bytes do not have the
/// ledger's 8-byte layout.
pub fn decode_height(bytes: &Vec<u8>) -> (r: Option<i64>)
    ensures
        r is Some <==> bytes@.len() == 8,
        r matches Some(h) ==> h == spec_decode_height(bytes@),
{
    if bytes.len() != 8 {
        return Option::None;
    }
    let u: u64 = (bytes[0] as u64) | ((bytes[1] as u64) << 8) | ((bytes[2] as u64) << 16) | ((
    bytes[3] as u64) << 24) | ((bytes[4] as u64) << 32) | ((bytes[5] as u64) << 40) | ((
    bytes[6] as u64) << 48) | ((bytes[7] as u64) << 56);
    Option::Some(u as i64)
}

/// What `increment` persists decodes back to exactly the height it recorded:
/// a restart that reads the last durably written bytes recovers the ledger
/// unchanged, and an interrupted write that left the prior bytes intact
/// recovers the prior height.
pub proof fn lemma_persisted_height_recovers(h: i64)
    ensures
        spec_decode_height(spec_height_bytes(h)) == h,
{
    let u = h as u64;
    let bytes = spec_height_bytes(h);
    assert(bytes[0] == (u & 0xff) as u8);
    assert(bytes[1] == ((u >> 8) & 0xff) as u8);
    assert(bytes[2] == ((u >> 16) & 0xff) as u8);
    assert(bytes[3] == ((u >> 24) & 0xff) as u8);
    assert(bytes[4] == ((u >> 32) & 0xff) as u8);
    assert(bytes[5] == ((u >> 40) & 0xff) as u8);
    assert(bytes[6] == ((u >> 48) & 0xff) as u8);
    assert(bytes[7] == ((u >> 56) & 0xff) as u8);
    assert((((((u & 0xff) as u8) as u64)) | (((((u >> 8) & 0xff) as u8) as u64) << 8) | (((((u
        >> 16) & 0xff) as u8) as u64) << 16) | (((((u >> 24) & 0xff) as u8) as u64) << 24) | (((((u
        >> 32) & 0xff) as u8) as u64) << 32) | (((((u >> 40) & 0xff) as u8) as u64) << 40) | (((((u
        >> 48) & 0xff) as u8) as u64) << 48) | (((((u >> 56) & 0xff) as u8) as u64) << 56)) == u)
        by (bit_vector);
    assert(((h as u64) as i64) == h) by (bit_vector);
}

/// A present but undecodable height record. Unrecoverable for the process:
/// the caller must abort rather than guess a height.
#[derive(Clone, Copy, Debug, PartialEq, Eq)]
pub struct HeightCorruption;

/// The in-memory mirror of the persisted height counter.
pub struct HeightLedger {
    height: i64,
}

impl HeightLedger {
    /// The last committed height this ledger records.
    pub closed spec fn height(&self) -> i64 {
        self.height
    }

    /// Start the ledger from whatever the store held: adopt a well-formed
    /// record; start at zero when there was none, handing back the bytes
    /// that must be persisted to create the record; refuse a corrupt record.
    pub fn read_or_create(stored: Option<Vec<u8>>) -> (r: Result<
        (HeightLedger, Option<Vec<u8>>),
        HeightCorruption,
    >)
        ensures
            match r {
                Result::Ok((ledger, created)) => match stored {
                    Option::Some(bytes) => bytes@.len() == 8 && ledger.height()
                        == spec_decode_height(bytes@) && created is None,
                    Option::None => ledger.height() == 0 && (created matches Some(b) && b@
                        == spec_height_bytes(0)),
                },
                Result::Err(_) => stored matches Some(bytes) && bytes@.len() != 8,
            },
    {
        match stored {
            Option::Some(bytes) => match decode_height(&bytes) {
                Option::Some(h) => Result::Ok((HeightLedger { height: h }, Option::None)),
                Option::None => Result::Err(HeightCorruption),
            },
            Option::None => Result::Ok(
                (HeightLedger { height: 0 }, Option::Some(encode_height(0))),
            ),
        }
    }

    /// Advance the counter by exactly one and hand back the new height and
    /// the bytes that must be durably written before the commit is
    /// acknowledged.
    pub fn increment(&mut self) -> (r: (i64, Vec<u8>))
        requires
            old(self).height() < i64::MAX,
        ensures
            final(self).height() == old(self).height() + 1,
            r.0 == final(self).height(),
            r.1@ == spec_height_bytes(final(self).height()),
    {
        self.height = self.height + 1;
        let bytes = encode_height(self.height);
        (self.height, bytes)
    }

    /// The recorded height, for the info hook.
    pub fn current(&self) -> (h: i64)
        ensures
            h == self.height(),
    {
        self.height
    }
}

/// Replaying `n` increments on a height counter.
pub open spec fn spec_replayed_height(start: int, n: nat) -> int
    decreases n,
{
    if n == 0 {
        start
    } else {
        spec_replayed_height(start, (n - 1) as nat) + 1
    }
}

/// After `n` successful increments starting from the fresh ledger's zero -
/// the state `read_or_create` builds when no record exists - the recorded
/// height is exactly `n`.
pub proof fn lemma_increments_count(n: nat)
    ensures
        spec_replayed_height(0, n) == n,
    decreases n,
{
    if n > 0 {
        lemma_increments_count((n - 1) as nat);
    }
}

} // verus!
