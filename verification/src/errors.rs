//! Error taxonomy of the bond contract.
//!
//! Every failure aborts the whole invocation: the caller sees the error and
//! no state change.  The variants group into authorization, state, temporal,
//! arithmetic, replay, reentrancy and validation failures.

use vstd::prelude::*;

verus! {

/// Why a bond-contract call was refused.
#[derive(Clone, Copy, Debug, PartialEq, Eq, Structural)]
pub enum BondError {
    // Authorization
    /// The contract has no admin yet.
    NotInitialized,
    /// Caller is not the stored admin.
    NotAdmin,
    /// Caller is neither the admin nor a governor.
    NotAdminOrGovernor,
    /// Caller is not an authorized attester.
    NotAttester,
    /// Caller is not the attestation's original verifier.
    NotVerifier,
    /// Caller is not the bond owner.
    NotBondOwner,
    /// Caller is not a governor.
    NotGovernor,
    /// Caller is neither a governor nor the current delegate of one.
    NotGovernorOrDelegate,
    /// Only the original proposer may trigger execution.
    NotProposer,
    // State
    /// No bond record exists.
    NoBond,
    /// The bond is not active.
    BondNotActive,
    /// Governance was never initialized.
    GovernanceNotInitialized,
    /// No proposal with that id exists.
    ProposalNotFound,
    /// The proposal is no longer open for voting.
    ProposalNotOpen,
    /// The proposal already reached a terminal state.
    AlreadyClosed,
    /// The effective voter already voted on this proposal.
    AlreadyVoted,
    /// The proposal did not reach quorum and majority.
    NotApproved,
    /// A live attestation with the same verifier, subject and payload exists.
    DuplicateAttestation,
    /// No attestation with that id exists.
    AttestationNotFound,
    /// The attestation was already revoked.
    AlreadyRevoked,
    /// A withdrawal was already requested for this rolling bond.
    AlreadyRequested,
    /// The bond is not a rolling bond.
    NotRolling,
    /// The early-exit configuration was never set.
    ConfigNotSet,
    // Temporal
    /// The lock-up period has not elapsed yet.
    LockupNotElapsed,
    /// The lock-up period has already elapsed (use the plain withdrawal).
    LockupElapsed,
    /// No withdrawal request was made, or the notice period has not elapsed.
    NoticeNotElapsed,
    // Arithmetic
    /// A checked addition, subtraction or multiplication overflowed.
    Overflow,
    /// The requested amount exceeds the available balance.
    InsufficientBalance,
    /// The cumulative slash would exceed the bonded amount.
    SlashExceedsBond,
    // Replay
    /// The supplied nonce does not match the stored one.
    Replay,
    // Reentrancy
    /// The reentrancy lock is already held.
    Reentrancy,
    // Validation
    /// The amount must be non-negative.
    NegativeAmount,
    /// The amount must be strictly positive.
    NonPositiveAmount,
    /// A basis-points rate must not exceed 10000.
    InvalidBps,
}

} // verus!
