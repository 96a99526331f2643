//! Governance approval for slashing: proposals, voting with one-hop
//! delegation, quorum and strict-majority computation.

use vstd::prelude::*;
use crate::errors::BondError;
use crate::events::AuditEvent;
use crate::state::CredenceBond;

verus! {

/// Status of a slash proposal; `Executed` and `Rejected` are terminal.
#[derive(Clone, Copy, Debug, PartialEq, Eq, Structural)]
pub enum ProposalStatus {
    /// Open for voting.
    Open,
    /// Executed (slash applied).
    Executed,
    /// Rejected (quorum not met or majority against).
    Rejected,
}

/// A slash proposal: amount to slash, proposer, and execution state.
#[derive(Clone, Copy, Debug, PartialEq, Eq, Structural)]
pub struct SlashProposal {
    pub id: u64,
    pub amount: i128,
    pub proposed_by: u64,
    pub proposed_at: u64,
    pub status: ProposalStatus,
}

/// The identity whose vote counts for a governor: the registered delegate if
/// one exists, else the governor itself.  Exactly one hop: the delegate's own
/// delegation, if any, is not followed.
pub open spec fn spec_effective_voter(delegates: Map<u64, u64>, governor: u64) -> u64 {
    if delegates.dom().contains(governor) {
        delegates[governor]
    } else {
        governor
    }
}

/// How many governors' effective voters have voted on the proposal.
pub open spec fn spec_count_voted(
    governors: Seq<u64>,
    delegates: Map<u64, u64>,
    votes: Map<(u64, u64), bool>,
    proposal_id: u64,
) -> int
    decreases governors.len(),
{
    if governors.len() == 0 {
        0
    } else {
        spec_count_voted(governors.drop_last(), delegates, votes, proposal_id) + if votes.dom()
            .contains((proposal_id, spec_effective_voter(delegates, governors.last()))) {
            1int
        } else {
            0int
        }
    }
}

/// How many governors' effective voters have voted approve on the proposal.
pub open spec fn spec_count_approve(
    governors: Seq<u64>,
    delegates: Map<u64, u64>,
    votes: Map<(u64, u64), bool>,
    proposal_id: u64,
) -> int
    decreases governors.len(),
{
    if governors.len() == 0 {
        0
    } else {
        spec_count_approve(governors.drop_last(), delegates, votes, proposal_id) + {
            let key = (proposal_id, spec_effective_voter(delegates, governors.last()));
            if votes.dom().contains(key) && votes[key] {
                1int
            } else {
                0int
            }
        }
    }
}

impl CredenceBond {
    /// The governor list, empty when governance was never initialized.
    pub open spec fn spec_governors(&self) -> Seq<u64> {
        match self.governors {
            Some(gs) => gs@,
            None => Seq::empty(),
        }
    }

    /// The configured quorum rate, with its default.
    pub open spec fn spec_quorum_bps(&self) -> u32 {
        match self.quorum_bps {
            Some(q) => q,
            None => 5100,
        }
    }

    /// The configured minimum number of voters, with its default.
    pub open spec fn spec_min_governors(&self) -> u32 {
        match self.min_governors {
            Some(m) => m,
            None => 1,
        }
    }

    /// The number of voters quorum asks for:
    /// `max(floor(total * quorum_bps / 10000), min_governors)`.
    pub open spec fn spec_quorum_threshold(&self) -> int {
        let total = self.spec_governors().len() as int;
        let by_rate = total * self.spec_quorum_bps() / 10000;
        if by_rate >= self.spec_min_governors() {
            by_rate
        } else {
            self.spec_min_governors() as int
        }
    }

    /// Whether the proposal is approved: there is at least one governor, the
    /// number of effective voters who voted meets the quorum threshold, and a
    /// strict majority of those who voted approve.
    pub open spec fn spec_is_approved(&self, proposal_id: u64) -> bool {
        let gs = self.spec_governors();
        let voted = spec_count_voted(gs, self.delegates@, self.votes@, proposal_id);
        let approve = spec_count_approve(gs, self.delegates@, self.votes@, proposal_id);
        &&& gs.len() > 0
        &&& voted >= self.spec_quorum_threshold()
        &&& voted > 0
        &&& approve > voted / 2
    }

    /// Whether the identity is one of the governors.
    pub open spec fn spec_is_governor(&self, who: u64) -> bool {
        self.spec_governors().contains(who)
    }

    /// Whether the identity is the current delegate of some governor.
    pub open spec fn spec_is_delegate_of_some(&self, who: u64) -> bool {
        exists|i: int|
            0 <= i < self.spec_governors().len() && self.delegates@.dom().contains(
                #[trigger] self.spec_governors()[i],
            ) && self.delegates@[self.spec_governors()[i]] == who
    }

    fn is_governor_inner(&self, who: u64) -> (r: bool)
        requires
            self.wf(),
        ensures
            r == self.spec_is_governor(who),
    {
        match &self.governors {
            None => {
                assert(!self.spec_governors().contains(who));
                false
            },
            Some(gs) => {
                let n = gs.len();
                let mut i: usize = 0;
                while i < n
                    invariant
                        i <= n,
                        n == gs@.len(),
                        gs@ == self.spec_governors(),
                        forall|j: int| 0 <= j < i ==> gs@[j] != who,
                    decreases n - i,
                {
                    if gs[i] == who {
                        return true;
                    }
                    i = i + 1;
                }
                assert(!self.spec_governors().contains(who));
                false
            },
        }
    }

    fn is_delegate_of_some_inner(&self, who: u64) -> (r: bool)
        requires
            self.wf(),
        ensures
            r == self.spec_is_delegate_of_some(who),
    {
        match &self.governors {
            None => false,
            Some(gs) => {
                let n = gs.len();
                let mut i: usize = 0;
                while i < n
                    invariant
                        i <= n,
                        n == gs@.len(),
                        gs@ == self.spec_governors(),
                        self.delegates.wf(),
                        forall|j: int|
                            0 <= j < i ==> !(self.delegates@.dom().contains(#[trigger] gs@[j])
                                && self.delegates@[gs@[j]] == who),
                    decreases n - i,
                {
                    let g = gs[i];
                    match self.delegates.get(g) {
                        Some(d) => {
                            if *d == who {
                                return true;
                            }
                        },
                        None => {},
                    }
                    i = i + 1;
                }
                false
            },
        }
    }

    /// What `initialize_governance` decides on this state and input.
    pub open spec fn spec_initialize_governance(&self, caller: u64, quorum_bps: u32) -> Result<
        (),
        BondError,
    > {
        match self.spec_admin_check(caller) {
            Err(e) => Err(e),
            Ok(()) => if quorum_bps > 10000 {
                Err(BondError::InvalidBps)
            } else {
                Ok(())
            },
        }
    }

    /// Initializes governance: replaces the governor set and quorum
    /// configuration and resets the proposal counter.  Admin only; the quorum
    /// rate must not exceed 10000 basis points.  Earlier proposals, votes and
    /// delegations stay in storage: a re-initialization does not clear them,
    /// and because the counter restarts at zero, later proposals overwrite
    /// the earlier ids one by one.  The terminality of `Executed` and
    /// `Rejected` therefore holds between re-initializations, not across
    /// them; the single-tenant deployment this models re-initializes
    /// governance only to replace its governor set.
    pub fn initialize_governance(
        &mut self,
        caller: u64,
        governors: Vec<u64>,
        quorum_bps: u32,
        min_governors: u32,
    ) -> (r: Result<(), BondError>)
        requires
            old(self).wf(),
        ensures
            final(self).wf(),
            r == old(self).spec_initialize_governance(caller, quorum_bps),
            r is Err ==> Self::unchanged(old(self), final(self)),
            r is Ok ==> {
                &&& final(self).governors == Some(governors)
                &&& final(self).quorum_bps == Some(quorum_bps)
                &&& final(self).min_governors == Some(min_governors)
                &&& final(self).next_proposal_id == 0
                &&& final(self).proposals@ == old(self).proposals@
                &&& final(self).votes@ == old(self).votes@
                &&& final(self).delegates@ == old(self).delegates@
                &&& Self::att_unchanged(old(self), final(self))
                &&& Self::cfg_unchanged(old(self), final(self))
                &&& Self::bond_unchanged(old(self), final(self))
                &&& final(self).events@ == old(self).events@
            },
    {
        match self.require_admin(caller) {
            Err(e) => Err(e),
            Ok(()) => {
                if quorum_bps > 10000 {
                    return Err(BondError::InvalidBps);
                }
                self.governors = Some(governors);
                self.quorum_bps = Some(quorum_bps);
                self.min_governors = Some(min_governors);
                self.next_proposal_id = 0;
                Ok(())
            },
        }
    }

    /// What `propose_slash` decides on this state and input.
    pub open spec fn spec_propose_slash(&self, proposer: u64, amount: i128) -> Result<
        u64,
        BondError,
    > {
        if self.admin is None {
            Err(BondError::NotInitialized)
        } else if self.admin != Some(proposer) && !self.spec_is_governor(proposer) {
            Err(BondError::NotAdminOrGovernor)
        } else if amount <= 0 {
            Err(BondError::NonPositiveAmount)
        } else if self.next_proposal_id == u64::MAX {
            Err(BondError::Overflow)
        } else {
            Ok(self.next_proposal_id)
        }
    }

    /// Creates a new slash proposal.  The proposer must be the admin or a
    /// governor and the amount strictly positive; the proposal gets the next
    /// sequential id and opens for voting.
    pub fn propose_slash(&mut self, now: u64, proposer: u64, amount: i128) -> (r: Result<
        u64,
        BondError,
    >)
        requires
            old(self).wf(),
        ensures
            final(self).wf(),
            r == old(self).spec_propose_slash(proposer, amount),
            r is Err ==> Self::unchanged(old(self), final(self)),
            r matches Ok(id) ==> {
                &&& id == old(self).next_proposal_id
                &&& final(self).next_proposal_id == id + 1
                &&& final(self).proposals@ == old(self).proposals@.insert(
                    id,
                    SlashProposal {
                        id,
                        amount,
                        proposed_by: proposer,
                        proposed_at: now,
                        status: ProposalStatus::Open,
                    },
                )
                &&& final(self).governors == old(self).governors
                &&& final(self).quorum_bps == old(self).quorum_bps
                &&& final(self).min_governors == old(self).min_governors
                &&& final(self).votes@ == old(self).votes@
                &&& final(self).delegates@ == old(self).delegates@
                &&& Self::att_unchanged(old(self), final(self))
                &&& Self::cfg_unchanged(old(self), final(self))
                &&& Self::bond_unchanged(old(self), final(self))
                &&& final(self).events@ == old(self).events@.push(
                    AuditEvent::SlashProposed { proposal_id: id, proposer, amount },
                )
            },
    {
        let admin = match self.admin {
            None => {
                return Err(BondError::NotInitialized);
            },
            Some(a) => a,
        };
        let is_governor = self.is_governor_inner(proposer);
        if proposer != admin && !is_governor {
            return Err(BondError::NotAdminOrGovernor);
        }
        if amount <= 0 {
            return Err(BondError::NonPositiveAmount);
        }
        let id = self.next_proposal_id;
        if id == u64::MAX {
            return Err(BondError::Overflow);
        }
        self.next_proposal_id = id + 1;
        let proposal = SlashProposal {
            id,
            amount,
            proposed_by: proposer,
            proposed_at: now,
            status: ProposalStatus::Open,
        };
        self.proposals.set(id, proposal);
        self.events.push(AuditEvent::SlashProposed { proposal_id: id, proposer, amount });
        Ok(id)
    }

    /// What `governance_vote` decides on this state and input; the recorded
    /// choice itself does not affect admissibility.
    pub open spec fn spec_governance_vote(&self, voter: u64, proposal_id: u64) -> Result<
        (),
        BondError,
    > {
        if !self.proposals@.dom().contains(proposal_id) {
            Err(BondError::ProposalNotFound)
        } else if self.proposals@[proposal_id].status != ProposalStatus::Open {
            Err(BondError::ProposalNotOpen)
        } else if self.governors is None {
            Err(BondError::GovernanceNotInitialized)
        } else if !self.spec_is_governor(voter) && !self.spec_is_delegate_of_some(voter) {
            Err(BondError::NotGovernorOrDelegate)
        } else if self.votes@.dom().contains((proposal_id, voter)) {
            Err(BondError::AlreadyVoted)
        } else {
            Ok(())
        }
    }

    /// Records a vote (approve or reject) by a governor or a current
    /// delegate of some governor.  A second vote by the same effective voter
    /// on the same proposal is rejected.
    pub fn governance_vote(&mut self, voter: u64, proposal_id: u64, approve: bool) -> (r: Result<
        (),
        BondError,
    >)
        requires
            old(self).wf(),
        ensures
            final(self).wf(),
            r == old(self).spec_governance_vote(voter, proposal_id),
            r is Err ==> Self::unchanged(old(self), final(self)),
            r is Ok ==> {
                &&& final(self).votes@ == old(self).votes@.insert((proposal_id, voter), approve)
                &&& final(self).governors == old(self).governors
                &&& final(self).quorum_bps == old(self).quorum_bps
                &&& final(self).min_governors == old(self).min_governors
                &&& final(self).next_proposal_id == old(self).next_proposal_id
                &&& final(self).proposals@ == old(self).proposals@
                &&& final(self).delegates@ == old(self).delegates@
                &&& Self::att_unchanged(old(self), final(self))
                &&& Self::cfg_unchanged(old(self), final(self))
                &&& Self::bond_unchanged(old(self), final(self))
                &&& final(self).events@ == old(self).events@.push(
                    AuditEvent::GovernanceVote { proposal_id, voter, approve },
                )
            },
    {
        let proposal = match self.proposals.get(proposal_id) {
            None => {
                return Err(BondError::ProposalNotFound);
            },
            Some(p) => *p,
        };
        if !matches!(proposal.status, ProposalStatus::Open) {
            return Err(BondError::ProposalNotOpen);
        }
        if self.governors.is_none() {
            return Err(BondError::GovernanceNotInitialized);
        }
        let is_gov = self.is_governor_inner(voter);
        let is_del = self.is_delegate_of_some_inner(voter);
        if !is_gov && !is_del {
            return Err(BondError::NotGovernorOrDelegate);
        }
        if self.votes.contains((proposal_id, voter)) {
            return Err(BondError::AlreadyVoted);
        }
        self.votes.set((proposal_id, voter), approve);
        self.events.push(AuditEvent::GovernanceVote { proposal_id, voter, approve });
        Ok(())
    }

    /// Delegates a governor's voting power to another identity, overwriting
    /// any previous delegate.  Exactly one hop: delegating to someone who has
    /// also delegated does not chain.
    pub fn governance_delegate(&mut self, governor: u64, to: u64) -> (r: Result<(), BondError>)
        requires
            old(self).wf(),
        ensures
            final(self).wf(),
            r == (if old(self).governors is None {
                Err::<(), _>(BondError::GovernanceNotInitialized)
            } else if !old(self).spec_is_governor(governor) {
                Err::<(), _>(BondError::NotGovernor)
            } else {
                Ok::<_, BondError>(())
            }),
            r is Err ==> Self::unchanged(old(self), final(self)),
            r is Ok ==> {
                &&& final(self).delegates@ == old(self).delegates@.insert(governor, to)
                &&& final(self).governors == old(self).governors
                &&& final(self).quorum_bps == old(self).quorum_bps
                &&& final(self).min_governors == old(self).min_governors
                &&& final(self).next_proposal_id == old(self).next_proposal_id
                &&& final(self).proposals@ == old(self).proposals@
                &&& final(self).votes@ == old(self).votes@
                &&& Self::att_unchanged(old(self), final(self))
                &&& Self::cfg_unchanged(old(self), final(self))
                &&& Self::bond_unchanged(old(self), final(self))
                &&& final(self).events@ == old(self).events@.push(
                    AuditEvent::GovernanceDelegate { governor },
                )
            },
    {
        if self.governors.is_none() {
            return Err(BondError::GovernanceNotInitialized);
        }
        if !self.is_governor_inner(governor) {
            return Err(BondError::NotGovernor);
        }
        self.delegates.set(governor, to);
        self.events.push(AuditEvent::GovernanceDelegate { governor });
        Ok(())
    }

    /// Checks whether the proposal meets quorum and strict majority.
    pub fn is_approved(&self, proposal_id: u64) -> (r: bool)
        requires
            self.wf(),
        ensures
            r == self.spec_is_approved(proposal_id),
    {
        let gs = match &self.governors {
            None => {
                assert(self.spec_governors().len() == 0);
                return false;
            },
            Some(gs) => gs,
        };
        let total = gs.len();
        if total == 0 {
            return false;
        }
        let quorum_bps = match self.quorum_bps {
            Some(q) => q,
            None => 5100,
        };
        let min_governors = match self.min_governors {
            Some(m) => m,
            None => 1,
        };
        let ghost spec_gs = self.spec_governors();
        let mut approve: u64 = 0;
        let mut voted: u64 = 0;
        let n = gs.len();
        let mut i: usize = 0;
        while i < n
            invariant
                i <= n,
                n == gs@.len(),
                gs@ == spec_gs,
                spec_gs == self.spec_governors(),
                self.wf(),
                voted == spec_count_voted(spec_gs.take(i as int), self.delegates@, self.votes@, proposal_id),
                approve == spec_count_approve(spec_gs.take(i as int), self.delegates@, self.votes@, proposal_id),
                approve <= voted <= i,
            decreases n - i,
        {
            let g = gs[i];
            let effective = match self.delegates.get(g) {
                Some(d) => *d,
                None => g,
            };
            assert(effective == spec_effective_voter(self.delegates@, g));
            let key = (proposal_id, effective);
            proof {
                assert(spec_gs.take(i as int + 1).drop_last() =~= spec_gs.take(i as int));
                assert(spec_gs.take(i as int + 1).last() == spec_gs[i as int]);
            }
            match self.votes.get(key) {
                Some(v) => {
                    voted = voted + 1;
                    if *v {
                        approve = approve + 1;
                    }
                },
                None => {},
            }
            i = i + 1;
        }
        proof {
            assert(spec_gs.take(n as int) =~= spec_gs);
        }
        proof {
            assert((total as int) * (quorum_bps as int) <= (u64::MAX as int) * (u32::MAX as int))
                by (nonlinear_arith)
                requires
                    0 <= total as int <= u64::MAX as int,
                    0 <= quorum_bps as int <= u32::MAX as int,
            ;
        }
        let threshold_by_rate = (total as u128) * (quorum_bps as u128) / 10_000;
        let threshold = if threshold_by_rate >= min_governors as u128 {
            threshold_by_rate
        } else {
            min_governors as u128
        };
        let quorum_ok = (voted as u128) >= threshold;
        let majority_ok = voted > 0 && approve > voted / 2;
        quorum_ok && majority_ok
    }

    /// What `execute_slash_if_approved` decides on this state and input.
    pub open spec fn spec_execute_slash_if_approved(&self, proposal_id: u64) -> Result<
        bool,
        BondError,
    > {
        if !self.proposals@.dom().contains(proposal_id) {
            Err(BondError::ProposalNotFound)
        } else if self.proposals@[proposal_id].status != ProposalStatus::Open {
            Err(BondError::AlreadyClosed)
        } else {
            Ok(self.spec_is_approved(proposal_id))
        }
    }

    /// Closes an open proposal: marks it `Executed` and reports true when it
    /// is approved, else marks it `Rejected` and reports false.  Both
    /// transitions are terminal; a closed proposal is refused.
    pub fn execute_slash_if_approved(&mut self, proposal_id: u64) -> (r: Result<bool, BondError>)
        requires
            old(self).wf(),
        ensures
            final(self).wf(),
            r == old(self).spec_execute_slash_if_approved(proposal_id),
            r is Err ==> Self::unchanged(old(self), final(self)),
            r matches Ok(executed) ==> {
                let p = old(self).proposals@[proposal_id];
                let status = if executed {
                    ProposalStatus::Executed
                } else {
                    ProposalStatus::Rejected
                };
                let ev = if executed {
                    AuditEvent::SlashProposalExecuted {
                        proposal_id,
                        proposer: p.proposed_by,
                        amount: p.amount,
                    }
                } else {
                    AuditEvent::SlashProposalRejected {
                        proposal_id,
                        proposer: p.proposed_by,
                        amount: p.amount,
                    }
                };
                &&& executed == old(self).spec_is_approved(proposal_id)
                &&& final(self).proposals@ == old(self).proposals@.insert(
                    proposal_id,
                    SlashProposal { status, ..p },
                )
                &&& final(self).governors == old(self).governors
                &&& final(self).quorum_bps == old(self).quorum_bps
                &&& final(self).min_governors == old(self).min_governors
                &&& final(self).next_proposal_id == old(self).next_proposal_id
                &&& final(self).votes@ == old(self).votes@
                &&& final(self).delegates@ == old(self).delegates@
                &&& Self::att_unchanged(old(self), final(self))
                &&& Self::cfg_unchanged(old(self), final(self))
                &&& Self::bond_unchanged(old(self), final(self))
                &&& final(self).events@ == old(self).events@.push(ev)
            },
    {
        let proposal = match self.proposals.get(proposal_id) {
            None => {
                return Err(BondError::ProposalNotFound);
            },
            Some(p) => *p,
        };
        if !matches!(proposal.status, ProposalStatus::Open) {
            return Err(BondError::AlreadyClosed);
        }
        if !self.is_approved(proposal_id) {
            let rejected = SlashProposal { status: ProposalStatus::Rejected, ..proposal };
            self.proposals.set(proposal_id, rejected);
            self.events.push(
                AuditEvent::SlashProposalRejected {
                    proposal_id,
                    proposer: proposal.proposed_by,
                    amount: proposal.amount,
                },
            );
            return Ok(false);
        }
        let executed = SlashProposal { status: ProposalStatus::Executed, ..proposal };
        self.proposals.set(proposal_id, executed);
        self.events.push(
            AuditEvent::SlashProposalExecuted {
                proposal_id,
                proposer: proposal.proposed_by,
                amount: proposal.amount,
            },
        );
        Ok(true)
    }

    /// What `execute_slash_with_governance` decides on this state and input.
    pub open spec fn spec_execute_slash_with_governance(&self, proposer: u64, proposal_id: u64)
        -> Result<crate::types::IdentityBond, BondError> {
        if !self.proposals@.dom().contains(proposal_id) {
            Err(BondError::ProposalNotFound)
        } else {
            let p = self.proposals@[proposal_id];
            if p.proposed_by != proposer {
                Err(BondError::NotProposer)
            } else if p.status != ProposalStatus::Open {
                Err(BondError::AlreadyClosed)
            } else if !self.spec_is_approved(proposal_id) {
                Err(BondError::NotApproved)
            } else {
                self.spec_slash(proposer, p.amount)
            }
        }
    }

    /// Executes an approved slash proposal.  Only the original proposer may
    /// trigger execution, the proposal must be open and approved, and the
    /// slash primitive runs with the proposer as caller (so only the admin's
    /// own proposals can actually execute).  On success the proposal is
    /// closed as executed; on any failure nothing changes, the proposal
    /// staying open.
    pub fn execute_slash_with_governance(&mut self, proposer: u64, proposal_id: u64) -> (r: Result<
        crate::types::IdentityBond,
        BondError,
    >)
        requires
            old(self).wf(),
        ensures
            final(self).wf(),
            r == old(self).spec_execute_slash_with_governance(proposer, proposal_id),
            r is Err ==> Self::unchanged(old(self), final(self)),
            r matches Ok(b) ==> {
                let p = old(self).proposals@[proposal_id];
                &&& final(self).bond == Some(b)
                &&& b.slashed_amount <= b.bonded_amount
                &&& final(self).proposals@ == old(self).proposals@.insert(
                    proposal_id,
                    SlashProposal { status: ProposalStatus::Executed, ..p },
                )
                &&& final(self).governors == old(self).governors
                &&& final(self).quorum_bps == old(self).quorum_bps
                &&& final(self).min_governors == old(self).min_governors
                &&& final(self).next_proposal_id == old(self).next_proposal_id
                &&& final(self).votes@ == old(self).votes@
                &&& final(self).delegates@ == old(self).delegates@
                &&& Self::att_unchanged(old(self), final(self))
                &&& Self::cfg_unchanged(old(self), final(self))
                &&& final(self).locked == old(self).locked
                &&& final(self).fee_pool == old(self).fee_pool
                &&& final(self).events@ == old(self).events@.push(
                    AuditEvent::SlashProposalExecuted {
                        proposal_id,
                        proposer: p.proposed_by,
                        amount: p.amount,
                    },
                )
            },
    {
        let proposal = match self.proposals.get(proposal_id) {
            None => {
                return Err(BondError::ProposalNotFound);
            },
            Some(p) => *p,
        };
        if proposal.proposed_by != proposer {
            return Err(BondError::NotProposer);
        }
        if !matches!(proposal.status, ProposalStatus::Open) {
            return Err(BondError::AlreadyClosed);
        }
        if !self.is_approved(proposal_id) {
            return Err(BondError::NotApproved);
        }
        match self.slash(proposer, proposal.amount) {
            Err(e) => Err(e),
            Ok(b) => {
                let executed = SlashProposal { status: ProposalStatus::Executed, ..proposal };
                self.proposals.set(proposal_id, executed);
                self.events.push(
                    AuditEvent::SlashProposalExecuted {
                        proposal_id,
                        proposer: proposal.proposed_by,
                        amount: proposal.amount,
                    },
                );
                Ok(b)
            },
        }
    }

    /// Looks a proposal up by id.
    pub fn get_slash_proposal(&self, proposal_id: u64) -> (r: Option<SlashProposal>)
        requires
            self.wf(),
        ensures
            r == if self.proposals@.dom().contains(proposal_id) {
                Some(self.proposals@[proposal_id])
            } else {
                None::<SlashProposal>
            },
    {
        match self.proposals.get(proposal_id) {
            Some(p) => Some(*p),
            None => None,
        }
    }

    /// Looks up the recorded vote of an effective voter on a proposal.
    pub fn get_governance_vote(&self, proposal_id: u64, voter: u64) -> (r: Option<bool>)
        requires
            self.wf(),
        ensures
            r == if self.votes@.dom().contains((proposal_id, voter)) {
                Some(self.votes@[(proposal_id, voter)])
            } else {
                None::<bool>
            },
    {
        match self.votes.get((proposal_id, voter)) {
            Some(v) => Some(*v),
            None => None,
        }
    }

    /// The governor list; empty when governance was never initialized.
    pub fn get_governors(&self) -> (r: Vec<u64>)
        requires
            self.wf(),
        ensures
            r@ == self.spec_governors(),
    {
        match &self.governors {
            None => Vec::new(),
            Some(gs) => crate::state::copy_u64_vec(gs),
        }
    }

    /// The registered delegate of a governor, if any.
    pub fn get_governance_delegate(&self, governor: u64) -> (r: Option<u64>)
        requires
            self.wf(),
        ensures
            r == if self.delegates@.dom().contains(governor) {
                Some(self.delegates@[governor])
            } else {
                None::<u64>
            },
    {
        match self.delegates.get(governor) {
            Some(d) => Some(*d),
            None => None,
        }
    }

    /// The quorum configuration `(quorum_bps, min_governors)`, with defaults.
    pub fn get_quorum_config(&self) -> (r: (u32, u32))
        ensures
            r.0 == self.spec_quorum_bps(),
            r.1 == self.spec_min_governors(),
    {
        let q = match self.quorum_bps {
            Some(q) => q,
            None => 5100,
        };
        let m = match self.min_governors {
            Some(m) => m,
            None => 1,
        };
        (q, m)
    }
}

} // verus!
