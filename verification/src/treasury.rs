//! Treasury: holds protocol fees and slashed funds, tracks receipts by
//! source, and releases funds only through multi-signature withdrawal
//! proposals.
//!
//! As with the bond contract, the host authenticates callers and moves the
//! actual value; admin-gated entry points here are reached only after the
//! host verified the admin authorized the invocation.

use vstd::prelude::*;
use crate::kv::{KvMap, KvMap2};

verus! {

/// Fund source for accounting and reporting.
#[derive(Clone, Copy, Debug, PartialEq, Eq, Structural)]
pub enum FundSource {
    /// Protocol fees (e.g. early exit penalties, service fees).
    ProtocolFee,
    /// Slashed funds from bond slashing.
    SlashedFunds,
}

/// A multi-sig withdrawal proposal, executable once the approval count
/// reaches the threshold.
#[derive(Clone, Copy, Debug, PartialEq, Eq, Structural)]
pub struct WithdrawalProposal {
    /// Recipient identity.
    pub recipient: u64,
    /// Amount to withdraw.
    pub amount: i128,
    /// When it was proposed.
    pub proposed_at: u64,
    /// The signer who created the proposal.
    pub proposer: u64,
    /// True once executed.
    pub executed: bool,
}

/// Why a treasury call was refused.
#[derive(Clone, Copy, Debug, PartialEq, Eq, Structural)]
pub enum TreasuryError {
    /// The treasury has no admin yet.
    NotInitialized,
    /// The amount must be strictly positive.
    NonPositiveAmount,
    /// Caller is neither the admin nor an authorized depositor.
    NotDepositor,
    /// Caller is not a signer.
    NotSigner,
    /// The threshold must not exceed the signer count.
    ThresholdTooHigh,
    /// No proposal with that id exists.
    ProposalNotFound,
    /// The proposal was already executed.
    AlreadyExecuted,
    /// The approval count has not reached the threshold.
    InsufficientApprovals,
    /// The treasury balance does not cover the amount.
    InsufficientBalance,
    /// A checked addition overflowed.
    Overflow,
}

/// One deployment of the treasury contract.
pub struct CredenceTreasury {
    /// The administrator identity, if initialized.
    pub admin: Option<u64>,
    /// Withdrawable balance (receipts minus executed withdrawals).
    pub total_balance: i128,
    /// Cumulative receipts attributed to protocol fees.
    pub balance_protocol_fee: i128,
    /// Cumulative receipts attributed to slashed funds.
    pub balance_slashed: i128,
    /// Authorized depositors (false is the same as absent).
    pub depositors: KvMap<bool>,
    /// Multi-sig signers (false is the same as absent).
    pub signers: KvMap<bool>,
    /// Cached number of signers.
    pub signer_count: u32,
    /// Approvals required to execute a withdrawal.
    pub threshold: u32,
    /// Next withdrawal-proposal id.
    pub proposal_counter: u64,
    /// Withdrawal proposals by id.
    pub proposals: KvMap<WithdrawalProposal>,
    /// Approvals by (proposal id, signer).
    pub approvals: KvMap2<bool>,
    /// Cached approval count per proposal.
    pub approval_counts: KvMap<u32>,
}

impl CredenceTreasury {
    /// Well-formedness: non-negative balances and well-shaped stores.
    pub open spec fn wf(&self) -> bool {
        &&& self.total_balance >= 0
        &&& self.balance_protocol_fee >= 0
        &&& self.balance_slashed >= 0
        &&& self.depositors.wf()
        &&& self.signers.wf()
        &&& self.proposals.wf()
        &&& forall|id: u64| #[trigger] self.proposals@.dom().contains(id)
            ==> self.proposals@[id].amount > 0
        &&& self.approvals.wf()
        &&& self.approval_counts.wf()
    }

    /// A fresh, uninitialized treasury.
    pub fn new() -> (r: Self)
        ensures
            r.wf(),
            r.admin is None,
            r.total_balance == 0,
            r.balance_protocol_fee == 0,
            r.balance_slashed == 0,
            r.signer_count == 0,
            r.threshold == 0,
            r.proposal_counter == 0,
            r.depositors@ =~= Map::<u64, bool>::empty(),
            r.signers@ =~= Map::<u64, bool>::empty(),
            r.proposals@ =~= Map::<u64, WithdrawalProposal>::empty(),
            r.approvals@ =~= Map::<(u64, u64), bool>::empty(),
            r.approval_counts@ =~= Map::<u64, u32>::empty(),
    {
        CredenceTreasury {
            admin: None,
            total_balance: 0,
            balance_protocol_fee: 0,
            balance_slashed: 0,
            depositors: KvMap::new(),
            signers: KvMap::new(),
            signer_count: 0,
            threshold: 0,
            proposal_counter: 0,
            proposals: KvMap::new(),
            approvals: KvMap2::new(),
            approval_counts: KvMap::new(),
        }
    }

    /// Initializes the treasury: stores the admin and zeroes the balances,
    /// counts and counter.  The host verifies the admin authorized this call.
    pub fn initialize(&mut self, admin: u64)
        requires
            old(self).wf(),
        ensures
            final(self).wf(),
            final(self).admin == Some(admin),
            final(self).total_balance == 0,
            final(self).balance_protocol_fee == 0,
            final(self).balance_slashed == 0,
            final(self).signer_count == 0,
            final(self).threshold == 0,
            final(self).proposal_counter == 0,
            final(self).depositors@ == old(self).depositors@,
            final(self).signers@ == old(self).signers@,
            final(self).proposals@ == old(self).proposals@,
            final(self).approvals@ == old(self).approvals@,
            final(self).approval_counts@ == old(self).approval_counts@,
    {
        self.admin = Some(admin);
        self.total_balance = 0;
        self.balance_protocol_fee = 0;
        self.balance_slashed = 0;
        self.signer_count = 0;
        self.threshold = 0;
        self.proposal_counter = 0;
    }

    /// Whether the identity is an authorized depositor.
    pub open spec fn spec_is_depositor(&self, who: u64) -> bool {
        self.depositors@.dom().contains(who) && self.depositors@[who]
    }

    /// Whether the identity is a signer.
    pub open spec fn spec_is_signer(&self, who: u64) -> bool {
        self.signers@.dom().contains(who) && self.signers@[who]
    }

    /// The balance attributed to a fund source.
    pub open spec fn spec_balance_by_source(&self, source: FundSource) -> i128 {
        match source {
            FundSource::ProtocolFee => self.balance_protocol_fee,
            FundSource::SlashedFunds => self.balance_slashed,
        }
    }

    /// What `receive_fee` decides on this state and input.
    pub open spec fn spec_receive_fee(&self, from: u64, amount: i128, source: FundSource)
        -> Result<(), TreasuryError> {
        if amount <= 0 {
            Err(TreasuryError::NonPositiveAmount)
        } else if self.admin is None {
            Err(TreasuryError::NotInitialized)
        } else if self.admin != Some(from) && !self.spec_is_depositor(from) {
            Err(TreasuryError::NotDepositor)
        } else if self.total_balance + amount > i128::MAX {
            Err(TreasuryError::Overflow)
        } else if self.spec_balance_by_source(source) + amount > i128::MAX {
            Err(TreasuryError::Overflow)
        } else {
            Ok(())
        }
    }

    /// Credits a positive amount to the pool and to its source bucket.  Only
    /// the admin or an authorized depositor may deposit.
    pub fn receive_fee(&mut self, from: u64, amount: i128, source: FundSource) -> (r: Result<
        (),
        TreasuryError,
    >)
        requires
            old(self).wf(),
        ensures
            final(self).wf(),
            r == old(self).spec_receive_fee(from, amount, source),
            r is Err ==> *final(self) == *old(self),
            r is Ok ==> {
                &&& final(self).total_balance == old(self).total_balance + amount
                &&& final(self).spec_balance_by_source(source) == old(self).spec_balance_by_source(
                    source,
                ) + amount
                &&& final(self).balance_protocol_fee == if source == FundSource::ProtocolFee {
                    old(self).balance_protocol_fee + amount
                } else {
                    old(self).balance_protocol_fee as int
                }
                &&& final(self).balance_slashed == if source == FundSource::SlashedFunds {
                    old(self).balance_slashed + amount
                } else {
                    old(self).balance_slashed as int
                }
                &&& final(self).admin == old(self).admin
                &&& final(self).depositors@ == old(self).depositors@
                &&& final(self).signers@ == old(self).signers@
                &&& final(self).signer_count == old(self).signer_count
                &&& final(self).threshold == old(self).threshold
                &&& final(self).proposal_counter == old(self).proposal_counter
                &&& final(self).proposals@ == old(self).proposals@
                &&& final(self).approvals@ == old(self).approvals@
                &&& final(self).approval_counts@ == old(self).approval_counts@
            },
    {
        if amount <= 0 {
            return Err(TreasuryError::NonPositiveAmount);
        }
        let admin = match self.admin {
            None => {
                return Err(TreasuryError::NotInitialized);
            },
            Some(a) => a,
        };
        let is_depositor = match self.depositors.get(from) {
            Some(b) => *b,
            None => false,
        };
        if from != admin && !is_depositor {
            return Err(TreasuryError::NotDepositor);
        }
        if self.total_balance > i128::MAX - amount {
            return Err(TreasuryError::Overflow);
        }
        let bucket = match source {
            FundSource::ProtocolFee => self.balance_protocol_fee,
            FundSource::SlashedFunds => self.balance_slashed,
        };
        if bucket > i128::MAX - amount {
            return Err(TreasuryError::Overflow);
        }
        self.total_balance = self.total_balance + amount;
        match source {
            FundSource::ProtocolFee => {
                self.balance_protocol_fee = self.balance_protocol_fee + amount;
            },
            FundSource::SlashedFunds => {
                self.balance_slashed = self.balance_slashed + amount;
            },
        }
        Ok(())
    }

    /// Allows an identity to deposit via `receive_fee`.  Admin-authorized.
    pub fn add_depositor(&mut self, depositor: u64) -> (r: Result<(), TreasuryError>)
        requires
            old(self).wf(),
        ensures
            final(self).wf(),
            r is Ok <==> old(self).admin is Some,
            r is Err ==> *final(self) == *old(self) && r == Err::<(), _>(
                TreasuryError::NotInitialized,
            ),
            r is Ok ==> {
                &&& final(self).depositors@ == old(self).depositors@.insert(depositor, true)
                &&& final(self).signers@ == old(self).signers@
                &&& final(self).admin == old(self).admin
                &&& final(self).total_balance == old(self).total_balance
                &&& final(self).balance_protocol_fee == old(self).balance_protocol_fee
                &&& final(self).balance_slashed == old(self).balance_slashed
                &&& final(self).signer_count == old(self).signer_count
                &&& final(self).threshold == old(self).threshold
                &&& final(self).proposal_counter == old(self).proposal_counter
                &&& final(self).proposals@ == old(self).proposals@
                &&& final(self).approvals@ == old(self).approvals@
                &&& final(self).approval_counts@ == old(self).approval_counts@
            },
    {
        if self.admin.is_none() {
            return Err(TreasuryError::NotInitialized);
        }
        self.depositors.set(depositor, true);
        Ok(())
    }

    /// Removes a depositor.  Admin-authorized.
    pub fn remove_depositor(&mut self, depositor: u64) -> (r: Result<(), TreasuryError>)
        requires
            old(self).wf(),
        ensures
            final(self).wf(),
            r is Ok <==> old(self).admin is Some,
            r is Err ==> *final(self) == *old(self) && r == Err::<(), _>(
                TreasuryError::NotInitialized,
            ),
            r is Ok ==> {
                &&& final(self).depositors@ == old(self).depositors@.insert(depositor, false)
                &&& !final(self).spec_is_depositor(depositor)
                &&& final(self).signers@ == old(self).signers@
                &&& final(self).admin == old(self).admin
                &&& final(self).total_balance == old(self).total_balance
                &&& final(self).balance_protocol_fee == old(self).balance_protocol_fee
                &&& final(self).balance_slashed == old(self).balance_slashed
                &&& final(self).signer_count == old(self).signer_count
                &&& final(self).threshold == old(self).threshold
                &&& final(self).proposal_counter == old(self).proposal_counter
                &&& final(self).proposals@ == old(self).proposals@
                &&& final(self).approvals@ == old(self).approvals@
                &&& final(self).approval_counts@ == old(self).approval_counts@
            },
    {
        if self.admin.is_none() {
            return Err(TreasuryError::NotInitialized);
        }
        self.depositors.set(depositor, false);
        Ok(())
    }

    /// What `add_signer` decides on this state and input.
    pub open spec fn spec_add_signer(&self, signer: u64) -> Result<(), TreasuryError> {
        if self.admin is None {
            Err(TreasuryError::NotInitialized)
        } else if !self.spec_is_signer(signer) && self.signer_count == u32::MAX {
            Err(TreasuryError::Overflow)
        } else {
            Ok(())
        }
    }

    /// Adds a multi-sig signer; adding an existing signer is a no-op.
    /// Admin-authorized.
    pub fn add_signer(&mut self, signer: u64) -> (r: Result<(), TreasuryError>)
        requires
            old(self).wf(),
        ensures
            final(self).wf(),
            r == old(self).spec_add_signer(signer),
            r is Err ==> *final(self) == *old(self),
            r is Ok && old(self).spec_is_signer(signer) ==> *final(self) == *old(self),
            r is Ok && !old(self).spec_is_signer(signer) ==> {
                &&& final(self).signers@ == old(self).signers@.insert(signer, true)
                &&& final(self).signer_count == old(self).signer_count + 1
                &&& final(self).depositors@ == old(self).depositors@
                &&& final(self).admin == old(self).admin
                &&& final(self).total_balance == old(self).total_balance
                &&& final(self).balance_protocol_fee == old(self).balance_protocol_fee
                &&& final(self).balance_slashed == old(self).balance_slashed
                &&& final(self).threshold == old(self).threshold
                &&& final(self).proposal_counter == old(self).proposal_counter
                &&& final(self).proposals@ == old(self).proposals@
                &&& final(self).approvals@ == old(self).approvals@
                &&& final(self).approval_counts@ == old(self).approval_counts@
            },
    {
        if self.admin.is_none() {
            return Err(TreasuryError::NotInitialized);
        }
        let already = match self.signers.get(signer) {
            Some(b) => *b,
            None => false,
        };
        if already {
            return Ok(());
        }
        if self.signer_count == u32::MAX {
            return Err(TreasuryError::Overflow);
        }
        self.signers.set(signer, true);
        self.signer_count = self.signer_count + 1;
        Ok(())
    }

    /// Removes a signer, lowering the threshold if it would otherwise exceed
    /// the signer count; removing a non-signer is a no-op.  Admin-authorized.
    pub fn remove_signer(&mut self, signer: u64) -> (r: Result<(), TreasuryError>)
        requires
            old(self).wf(),
        ensures
            final(self).wf(),
            r is Ok <==> old(self).admin is Some,
            r is Err ==> *final(self) == *old(self) && r == Err::<(), _>(
                TreasuryError::NotInitialized,
            ),
            r is Ok && !old(self).spec_is_signer(signer) ==> *final(self) == *old(self),
            r is Ok && old(self).spec_is_signer(signer) ==> {
                let new_count = if old(self).signer_count == 0 {
                    0
                } else {
                    (old(self).signer_count - 1) as u32
                };
                &&& final(self).signers@ == old(self).signers@.insert(signer, false)
                &&& final(self).signer_count == new_count
                &&& final(self).threshold == if old(self).threshold > new_count {
                    new_count
                } else {
                    old(self).threshold
                }
                &&& final(self).depositors@ == old(self).depositors@
                &&& final(self).admin == old(self).admin
                &&& final(self).total_balance == old(self).total_balance
                &&& final(self).balance_protocol_fee == old(self).balance_protocol_fee
                &&& final(self).balance_slashed == old(self).balance_slashed
                &&& final(self).proposal_counter == old(self).proposal_counter
                &&& final(self).proposals@ == old(self).proposals@
                &&& final(self).approvals@ == old(self).approvals@
                &&& final(self).approval_counts@ == old(self).approval_counts@
            },
    {
        if self.admin.is_none() {
            return Err(TreasuryError::NotInitialized);
        }
        let exists = match self.signers.get(signer) {
            Some(b) => *b,
            None => false,
        };
        if !exists {
            return Ok(());
        }
        self.signers.set(signer, false);
        let new_count = if self.signer_count == 0 {
            0
        } else {
            self.signer_count - 1
        };
        self.signer_count = new_count;
        if self.threshold > new_count {
            self.threshold = new_count;
        }
        Ok(())
    }

    /// Sets the number of approvals required to execute a withdrawal; it must
    /// not exceed the signer count.  Admin-authorized.
    pub fn set_threshold(&mut self, threshold: u32) -> (r: Result<(), TreasuryError>)
        requires
            old(self).wf(),
        ensures
            final(self).wf(),
            r == (if old(self).admin is None {
                Err::<(), _>(TreasuryError::NotInitialized)
            } else if threshold > old(self).signer_count {
                Err::<(), _>(TreasuryError::ThresholdTooHigh)
            } else {
                Ok::<_, TreasuryError>(())
            }),
            r is Err ==> *final(self) == *old(self),
            r is Ok ==> {
                &&& final(self).threshold == threshold
                &&& final(self).signers@ == old(self).signers@
                &&& final(self).depositors@ == old(self).depositors@
                &&& final(self).admin == old(self).admin
                &&& final(self).total_balance == old(self).total_balance
                &&& final(self).balance_protocol_fee == old(self).balance_protocol_fee
                &&& final(self).balance_slashed == old(self).balance_slashed
                &&& final(self).signer_count == old(self).signer_count
                &&& final(self).proposal_counter == old(self).proposal_counter
                &&& final(self).proposals@ == old(self).proposals@
                &&& final(self).approvals@ == old(self).approvals@
                &&& final(self).approval_counts@ == old(self).approval_counts@
            },
    {
        if self.admin.is_none() {
            return Err(TreasuryError::NotInitialized);
        }
        if threshold > self.signer_count {
            return Err(TreasuryError::ThresholdTooHigh);
        }
        self.threshold = threshold;
        Ok(())
    }

    /// What `propose_withdrawal` decides on this state and input.
    pub open spec fn spec_propose_withdrawal(&self, proposer: u64, amount: i128) -> Result<
        u64,
        TreasuryError,
    > {
        if !self.spec_is_signer(proposer) {
            Err(TreasuryError::NotSigner)
        } else if amount <= 0 {
            Err(TreasuryError::NonPositiveAmount)
        } else if amount > self.total_balance {
            Err(TreasuryError::InsufficientBalance)
        } else if self.proposal_counter == u64::MAX {
            Err(TreasuryError::Overflow)
        } else {
            Ok(self.proposal_counter)
        }
    }

    /// Creates a withdrawal proposal.  Only a signer may propose; the amount
    /// must be positive and covered by the balance at proposal time.
    pub fn propose_withdrawal(&mut self, now: u64, proposer: u64, recipient: u64, amount: i128)
        -> (r: Result<u64, TreasuryError>)
        requires
            old(self).wf(),
        ensures
            final(self).wf(),
            r == old(self).spec_propose_withdrawal(proposer, amount),
            r is Err ==> *final(self) == *old(self),
            r matches Ok(id) ==> {
                &&& id == old(self).proposal_counter
                &&& final(self).proposal_counter == id + 1
                &&& final(self).proposals@ == old(self).proposals@.insert(
                    id,
                    WithdrawalProposal {
                        recipient,
                        amount,
                        proposed_at: now,
                        proposer,
                        executed: false,
                    },
                )
                &&& final(self).approval_counts@ == old(self).approval_counts@.insert(id, 0)
                &&& final(self).approvals@ == old(self).approvals@
                &&& final(self).signers@ == old(self).signers@
                &&& final(self).depositors@ == old(self).depositors@
                &&& final(self).admin == old(self).admin
                &&& final(self).total_balance == old(self).total_balance
                &&& final(self).balance_protocol_fee == old(self).balance_protocol_fee
                &&& final(self).balance_slashed == old(self).balance_slashed
                &&& final(self).signer_count == old(self).signer_count
                &&& final(self).threshold == old(self).threshold
            },
    {
        let is_signer = match self.signers.get(proposer) {
            Some(b) => *b,
            None => false,
        };
        if !is_signer {
            return Err(TreasuryError::NotSigner);
        }
        if amount <= 0 {
            return Err(TreasuryError::NonPositiveAmount);
        }
        if amount > self.total_balance {
            return Err(TreasuryError::InsufficientBalance);
        }
        let id = self.proposal_counter;
        if id == u64::MAX {
            return Err(TreasuryError::Overflow);
        }
        self.proposal_counter = id + 1;
        let proposal = WithdrawalProposal {
            recipient,
            amount,
            proposed_at: now,
            proposer,
            executed: false,
        };
        self.proposals.set(id, proposal);
        self.approval_counts.set(id, 0);
        Ok(id)
    }

    /// The cached approval count of a proposal.
    pub open spec fn spec_approval_count(&self, proposal_id: u64) -> u32 {
        if self.approval_counts@.dom().contains(proposal_id) {
            self.approval_counts@[proposal_id]
        } else {
            0
        }
    }

    /// Whether the signer already approved the proposal.
    pub open spec fn spec_has_approved(&self, proposal_id: u64, signer: u64) -> bool {
        self.approvals@.dom().contains((proposal_id, signer)) && self.approvals@[(
            proposal_id,
            signer,
        )]
    }

    /// What `approve_withdrawal` decides on this state and input.
    pub open spec fn spec_approve_withdrawal(&self, approver: u64, proposal_id: u64) -> Result<
        (),
        TreasuryError,
    > {
        if !self.spec_is_signer(approver) {
            Err(TreasuryError::NotSigner)
        } else if !self.proposals@.dom().contains(proposal_id) {
            Err(TreasuryError::ProposalNotFound)
        } else if self.proposals@[proposal_id].executed {
            Err(TreasuryError::AlreadyExecuted)
        } else if !self.spec_has_approved(proposal_id, approver) && self.spec_approval_count(
            proposal_id,
        ) == u32::MAX {
            Err(TreasuryError::Overflow)
        } else {
            Ok(())
        }
    }

    /// Approves a withdrawal proposal.  Only signers approve; a repeated
    /// approval by the same signer is a no-op.
    pub fn approve_withdrawal(&mut self, approver: u64, proposal_id: u64) -> (r: Result<
        (),
        TreasuryError,
    >)
        requires
            old(self).wf(),
        ensures
            final(self).wf(),
            r == old(self).spec_approve_withdrawal(approver, proposal_id),
            r is Err ==> *final(self) == *old(self),
            r is Ok && old(self).spec_has_approved(proposal_id, approver) ==> *final(self) == *old(
                self,
            ),
            r is Ok && !old(self).spec_has_approved(proposal_id, approver) ==> {
                &&& final(self).approvals@ == old(self).approvals@.insert(
                    (proposal_id, approver),
                    true,
                )
                &&& final(self).approval_counts@ == old(self).approval_counts@.insert(
                    proposal_id,
                    (old(self).spec_approval_count(proposal_id) + 1) as u32,
                )
                &&& final(self).spec_approval_count(proposal_id) == old(self).spec_approval_count(
                    proposal_id,
                ) + 1
                &&& final(self).proposals@ == old(self).proposals@
                &&& final(self).signers@ == old(self).signers@
                &&& final(self).depositors@ == old(self).depositors@
                &&& final(self).admin == old(self).admin
                &&& final(self).total_balance == old(self).total_balance
                &&& final(self).balance_protocol_fee == old(self).balance_protocol_fee
                &&& final(self).balance_slashed == old(self).balance_slashed
                &&& final(self).signer_count == old(self).signer_count
                &&& final(self).threshold == old(self).threshold
                &&& final(self).proposal_counter == old(self).proposal_counter
            },
    {
        let is_signer = match self.signers.get(approver) {
            Some(b) => *b,
            None => false,
        };
        if !is_signer {
            return Err(TreasuryError::NotSigner);
        }
        let proposal = match self.proposals.get(proposal_id) {
            None => {
                return Err(TreasuryError::ProposalNotFound);
            },
            Some(p) => *p,
        };
        if proposal.executed {
            return Err(TreasuryError::AlreadyExecuted);
        }
        let already = match self.approvals.get((proposal_id, approver)) {
            Some(b) => *b,
            None => false,
        };
        if already {
            return Ok(());
        }
        let count = match self.approval_counts.get(proposal_id) {
            Some(c) => *c,
            None => 0,
        };
        if count == u32::MAX {
            return Err(TreasuryError::Overflow);
        }
        self.approvals.set((proposal_id, approver), true);
        self.approval_counts.set(proposal_id, count + 1);
        Ok(())
    }

    /// What `execute_withdrawal` decides on this state and input.
    pub open spec fn spec_execute_withdrawal(&self, proposal_id: u64) -> Result<
        (),
        TreasuryError,
    > {
        if !self.proposals@.dom().contains(proposal_id) {
            Err(TreasuryError::ProposalNotFound)
        } else if self.proposals@[proposal_id].executed {
            Err(TreasuryError::AlreadyExecuted)
        } else if self.spec_approval_count(proposal_id) < self.threshold {
            Err(TreasuryError::InsufficientApprovals)
        } else if self.total_balance < self.proposals@[proposal_id].amount {
            Err(TreasuryError::InsufficientBalance)
        } else {
            Ok(())
        }
    }

    /// Executes a withdrawal once its approval count reached the threshold;
    /// anyone may trigger it.  The amount leaves the pool and the host pays
    /// the recipient; the source buckets keep tracking cumulative receipts.
    pub fn execute_withdrawal(&mut self, proposal_id: u64) -> (r: Result<(), TreasuryError>)
        requires
            old(self).wf(),
        ensures
            final(self).wf(),
            r == old(self).spec_execute_withdrawal(proposal_id),
            r is Err ==> *final(self) == *old(self),
            r is Ok ==> {
                let p = old(self).proposals@[proposal_id];
                &&& final(self).total_balance == old(self).total_balance - p.amount
                &&& final(self).proposals@ == old(self).proposals@.insert(
                    proposal_id,
                    WithdrawalProposal { executed: true, ..p },
                )
                &&& final(self).approvals@ == old(self).approvals@
                &&& final(self).approval_counts@ == old(self).approval_counts@
                &&& final(self).signers@ == old(self).signers@
                &&& final(self).depositors@ == old(self).depositors@
                &&& final(self).admin == old(self).admin
                &&& final(self).balance_protocol_fee == old(self).balance_protocol_fee
                &&& final(self).balance_slashed == old(self).balance_slashed
                &&& final(self).signer_count == old(self).signer_count
                &&& final(self).threshold == old(self).threshold
                &&& final(self).proposal_counter == old(self).proposal_counter
            },
    {
        let proposal = match self.proposals.get(proposal_id) {
            None => {
                return Err(TreasuryError::ProposalNotFound);
            },
            Some(p) => *p,
        };
        if proposal.executed {
            return Err(TreasuryError::AlreadyExecuted);
        }
        let approvals = match self.approval_counts.get(proposal_id) {
            Some(c) => *c,
            None => 0,
        };
        if approvals < self.threshold {
            return Err(TreasuryError::InsufficientApprovals);
        }
        if self.total_balance < proposal.amount {
            return Err(TreasuryError::InsufficientBalance);
        }
        self.total_balance = self.total_balance - proposal.amount;
        let executed = WithdrawalProposal { executed: true, ..proposal };
        self.proposals.set(proposal_id, executed);
        Ok(())
    }

    /// The withdrawable treasury balance.
    pub fn get_balance(&self) -> (r: i128)
        ensures
            r == self.total_balance,
    {
        self.total_balance
    }

    /// The cumulative receipts attributed to a fund source.
    pub fn get_balance_by_source(&self, source: FundSource) -> (r: i128)
        ensures
            r == self.spec_balance_by_source(source),
    {
        match source {
            FundSource::ProtocolFee => self.balance_protocol_fee,
            FundSource::SlashedFunds => self.balance_slashed,
        }
    }

    /// The admin identity.
    pub fn get_admin(&self) -> (r: Result<u64, TreasuryError>)
        ensures
            r == match self.admin {
                Some(a) => Ok::<_, TreasuryError>(a),
                None => Err::<u64, _>(TreasuryError::NotInitialized),
            },
    {
        match self.admin {
            Some(a) => Ok(a),
            None => Err(TreasuryError::NotInitialized),
        }
    }

    /// Whether the identity is an authorized depositor.
    pub fn is_depositor(&self, address: u64) -> (r: bool)
        requires
            self.wf(),
        ensures
            r == self.spec_is_depositor(address),
    {
        match self.depositors.get(address) {
            Some(b) => *b,
            None => false,
        }
    }

    /// Whether the identity is a signer.
    pub fn is_signer(&self, address: u64) -> (r: bool)
        requires
            self.wf(),
        ensures
            r == self.spec_is_signer(address),
    {
        match self.signers.get(address) {
            Some(b) => *b,
            None => false,
        }
    }

    /// The current approval threshold.
    pub fn get_threshold(&self) -> (r: u32)
        ensures
            r == self.threshold,
    {
        self.threshold
    }

    /// Looks a withdrawal proposal up by id.
    pub fn get_proposal(&self, proposal_id: u64) -> (r: Result<WithdrawalProposal, TreasuryError>)
        requires
            self.wf(),
        ensures
            r == if self.proposals@.dom().contains(proposal_id) {
                Ok::<_, TreasuryError>(self.proposals@[proposal_id])
            } else {
                Err::<WithdrawalProposal, _>(TreasuryError::ProposalNotFound)
            },
    {
        match self.proposals.get(proposal_id) {
            Some(p) => Ok(*p),
            None => Err(TreasuryError::ProposalNotFound),
        }
    }

    /// The cached approval count of a proposal.
    pub fn get_approval_count(&self, proposal_id: u64) -> (r: u32)
        requires
            self.wf(),
        ensures
            r == self.spec_approval_count(proposal_id),
    {
        match self.approval_counts.get(proposal_id) {
            Some(c) => *c,
            None => 0,
        }
    }

    /// Whether the signer approved the proposal.
    pub fn has_approved(&self, proposal_id: u64, signer: u64) -> (r: bool)
        requires
            self.wf(),
        ensures
            r == self.spec_has_approved(proposal_id, signer),
    {
        match self.approvals.get((proposal_id, signer)) {
            Some(b) => *b,
            None => false,
        }
    }
}

} // verus!
