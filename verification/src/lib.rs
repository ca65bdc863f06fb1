//! Application core of a rollup-style sequencer driven by a BFT consensus
//! engine: the self-verifying transaction envelope, the rolling app-hash
//! accumulator, the crash-safe height ledger, the byte-budget proposal
//! builder, and the block-lifecycle state machine that ties them together.
//!
//! Everything consensus-relevant is verified. Calls into the execution
//! engine, the cryptographic hash, and the id generator go through small
//! trusted wrappers whose contracts state exactly what the outside crates
//! document.

pub mod accumulator;
pub mod app;
pub mod client;
pub mod digest;
pub mod engine;
pub mod height;
pub mod hexstr;
pub mod proposal;
pub mod transaction;
