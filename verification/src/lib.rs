//! Identity-bonding protocol core: bond accounting, governance-gated slashing,
//! reentrancy-guard discipline, and a nonce-protected attestation registry.
//!
//! Every contract is modelled as an explicit state value over plain data
//! (identities are numeric ids, time is a caller-supplied timestamp).  The
//! host that embeds a state value performs authentication, persistence, value
//! transfer and event delivery; the functions here decide and record what
//! happens, and their contracts state those decisions exactly.

pub mod arbitration;
pub mod attestation_ops;
pub mod bond_ops;
pub mod delegation;
pub mod dispute_resolution;
pub mod early_exit_penalty;
pub mod errors;
pub mod events;
pub mod fees;
pub mod governance_approval;
pub mod guarded;
pub mod kv;
pub mod laws;
pub mod rolling_bond;
pub mod state;
pub mod tiered_bond;
pub mod treasury;
pub mod types;
