//! Confidential financial state over a public ledger.
//!
//! The ledger stores only ciphertext; an external confidential-compute
//! cluster runs the state-transition circuits and returns signed outputs.
//! This crate verifies the circuits themselves, the fixed-size record
//! codec, the computation-request builder, and the queue/verify/apply
//! protocol that commits each signed output exactly once.

pub mod circuits;
pub mod codec;
pub mod laws;
pub mod ledger;
pub mod request;
