//! Persistent-state layer and threshold-update transition of an on-chain
//! multisig authorization program.
//!
//! The heart of the crate is the validated account memory model: fixed-size
//! records live in byte buffers supplied by an untrusted caller, and every
//! interpretation of such a buffer goes through a checked cast that proves
//! an exact length (and, for persisted records, ownership) before the bytes
//! are trusted. The threshold-update instruction consumes that layer: it
//! binds the supplied config account to its multisig root through a derived
//! address, validates the stored record, and mutates the threshold in
//! place, all or nothing.

pub mod errors;
pub mod instructions;
pub mod pda;
pub mod state;
