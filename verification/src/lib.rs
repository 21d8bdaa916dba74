//! Deterministic derivation of an ElGamal encryption keypair from a signing
//! keypair and a recipient address, exposed across a dynamically-typed
//! interchange boundary.
//!
//! The host boundary carries only dynamically-typed tree values (numbers,
//! sequences, records, text), so fixed-length binary data must cross it
//! through an explicit, arity-checked codec.  This crate holds the verified
//! core: the interchange value model, the fixed-length byte codec, and the
//! derivation call adapter.

pub mod adapter;
pub mod codec;
pub mod interchange;
