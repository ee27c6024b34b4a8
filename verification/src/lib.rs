//! A small on-ledger registry of operators and custodial Bitcoin pods.
//!
//! The crate holds the state-transition rules for three record kinds: the
//! registry that admits operators, the application records registered under
//! an authority, and the pods that track a Bitcoin-backed balance for one
//! owner. Every transition validates its inputs, checks that the caller is
//! the recorded authority, applies its whole effect or none of it, and is
//! proved to do so. A pod's account address is derived deterministically
//! from its owner and the prefix of its custody key through the host
//! ledger's derivation scheme, and is re-checked on every access.

pub mod address;
pub mod errors;
pub mod handlers;
pub mod state;
pub mod validation;
