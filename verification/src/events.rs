//! Audit events: the append-only stream a deployment publishes for off-chain
//! indexers.  The contract state carries the stream as a vector; every entry
//! keeps the exact payload fields in their original order.

use vstd::prelude::*;
use crate::tiered_bond::BondTier;

verus! {

/// One entry of the audit-event stream.
#[derive(Clone, Copy, Debug, PartialEq, Eq, Structural)]
pub enum AuditEvent {
    AttesterRegistered { attester: u64 },
    AttesterUnregistered { attester: u64 },
    AttestationAdded { subject: u64, id: u64, attester: u64, data: u64, weight: u32 },
    AttestationRevoked { subject: u64, id: u64, attester: u64 },
    WithdrawalRequested { identity: u64, requested_at: u64 },
    BondRenewed { identity: u64, bond_start: u64, bond_duration: u64 },
    TierChanged { identity: u64, new_tier: BondTier },
    EarlyExitPenalty { identity: u64, withdraw_amount: i128, penalty: i128, treasury: u64 },
    BondCreationFee { identity: u64, bond_amount: i128, fee: i128, treasury: u64 },
    SlashProposed { proposal_id: u64, proposer: u64, amount: i128 },
    GovernanceVote { proposal_id: u64, voter: u64, approve: bool },
    GovernanceDelegate { governor: u64 },
    SlashProposalExecuted { proposal_id: u64, proposer: u64, amount: i128 },
    SlashProposalRejected { proposal_id: u64, proposer: u64, amount: i128 },
}

} // verus!
