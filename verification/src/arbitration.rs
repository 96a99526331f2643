//! Arbitration: weighted arbitrator votes over dispute outcomes, with the
//! highest-weight outcome winning and ties left unresolved.

use vstd::prelude::*;
use crate::kv::{KvMap, KvMap2};

verus! {

/// A dispute under arbitration.  Outcome 0 means unresolved or tied; real
/// outcomes are positive.  The description is an opaque payload compared only
/// for equality.
#[derive(Clone, Copy, Debug, PartialEq, Eq, Structural)]
pub struct ArbitrationDispute {
    pub id: u64,
    pub creator: u64,
    pub description: u64,
    pub voting_start: u64,
    pub voting_end: u64,
    pub resolved: bool,
    pub outcome: u32,
}

/// Why an arbitration call was refused.
#[derive(Clone, Copy, Debug, PartialEq, Eq, Structural)]
pub enum ArbitrationError {
    /// The contract already has an admin.
    AlreadyInitialized,
    /// The contract has no admin yet.
    NotInitialized,
    /// An arbitrator's weight must be strictly positive.
    NonPositiveWeight,
    /// Outcome 0 is reserved for "unresolved".
    InvalidOutcome,
    /// Caller is not a registered arbitrator.
    NotArbitrator,
    /// No dispute with that id exists.
    DisputeNotFound,
    /// The voting window is not open at this time.
    VotingInactive,
    /// The dispute was already resolved.
    AlreadyResolved,
    /// The arbitrator already voted on this dispute.
    AlreadyVoted,
    /// A checked addition overflowed.
    Overflow,
}

/// One deployment of the arbitration contract.
pub struct CredenceArbitration {
    /// The administrator identity, if initialized.
    pub admin: Option<u64>,
    /// Arbitrator voting weights; zero is the same as unregistered.
    pub arbitrators: KvMap<i128>,
    /// Disputes by id; ids are assigned sequentially from zero.
    pub disputes: KvMap<ArbitrationDispute>,
    /// Next dispute id.
    pub dispute_counter: u64,
    /// Total voted weight by (dispute id, outcome).
    pub tallies: KvMap2<i128>,
    /// Per dispute, the distinct outcomes that received votes, in first-vote
    /// order.
    pub outcome_lists: KvMap<Vec<u32>>,
    /// Which (dispute id, arbitrator) pairs have voted.
    pub voted: KvMap2<bool>,
}

impl CredenceArbitration {
    /// Well-formedness: well-shaped stores, non-negative weights, and
    /// duplicate-free outcome lists.
    pub open spec fn wf(&self) -> bool {
        &&& self.arbitrators.wf()
        &&& self.disputes.wf()
        &&& self.tallies.wf()
        &&& self.outcome_lists.wf()
        &&& self.voted.wf()
        &&& forall|k: u64|
            self.arbitrators@.dom().contains(k) ==> self.arbitrators@[k] >= 0
        &&& forall|d: u64| #[trigger] self.outcome_lists@.dom().contains(d) ==> {
            let os = self.outcome_lists@[d]@;
            forall|i: int, j: int| 0 <= i < j < os.len() ==> os[i] != os[j]
        }
    }

    /// A fresh, uninitialized deployment.
    pub fn new() -> (r: Self)
        ensures
            r.wf(),
            r.admin is None,
            r.dispute_counter == 0,
            r.arbitrators@ =~= Map::<u64, i128>::empty(),
            r.disputes@ =~= Map::<u64, ArbitrationDispute>::empty(),
            r.tallies@ =~= Map::<(u64, u64), i128>::empty(),
            r.outcome_lists@ =~= Map::<u64, Vec<u32>>::empty(),
            r.voted@ =~= Map::<(u64, u64), bool>::empty(),
    {
        CredenceArbitration {
            admin: None,
            arbitrators: KvMap::new(),
            disputes: KvMap::new(),
            dispute_counter: 0,
            tallies: KvMap2::new(),
            outcome_lists: KvMap::new(),
            voted: KvMap2::new(),
        }
    }

    /// Initializes the contract with an admin, once.
    pub fn initialize(&mut self, admin: u64) -> (r: Result<(), ArbitrationError>)
        requires
            old(self).wf(),
        ensures
            final(self).wf(),
            r is Ok <==> old(self).admin is None,
            r is Err ==> *final(self) == *old(self) && r == Err::<(), _>(
                ArbitrationError::AlreadyInitialized,
            ),
            r is Ok ==> *final(self) == (CredenceArbitration { admin: Some(admin), ..*old(self) }),
    {
        if self.admin.is_some() {
            return Err(ArbitrationError::AlreadyInitialized);
        }
        self.admin = Some(admin);
        Ok(())
    }

    /// The weight of a registered arbitrator; zero when unregistered.
    pub open spec fn spec_weight_of(&self, who: u64) -> i128 {
        if self.arbitrators@.dom().contains(who) {
            self.arbitrators@[who]
        } else {
            0
        }
    }

    /// Registers or updates an arbitrator with a positive voting weight.
    /// Admin-authorized.
    pub fn register_arbitrator(&mut self, arbitrator: u64, weight: i128) -> (r: Result<
        (),
        ArbitrationError,
    >)
        requires
            old(self).wf(),
        ensures
            final(self).wf(),
            r == (if old(self).admin is None {
                Err::<(), _>(ArbitrationError::NotInitialized)
            } else if weight <= 0 {
                Err::<(), _>(ArbitrationError::NonPositiveWeight)
            } else {
                Ok::<_, ArbitrationError>(())
            }),
            r is Err ==> *final(self) == *old(self),
            r is Ok ==> {
                &&& final(self).arbitrators@ == old(self).arbitrators@.insert(arbitrator, weight)
                &&& final(self).admin == old(self).admin
                &&& final(self).disputes@ == old(self).disputes@
                &&& final(self).dispute_counter == old(self).dispute_counter
                &&& final(self).tallies@ == old(self).tallies@
                &&& final(self).outcome_lists@ == old(self).outcome_lists@
                &&& final(self).voted@ == old(self).voted@
            },
    {
        if self.admin.is_none() {
            return Err(ArbitrationError::NotInitialized);
        }
        if weight <= 0 {
            return Err(ArbitrationError::NonPositiveWeight);
        }
        self.arbitrators.set(arbitrator, weight);
        Ok(())
    }

    /// Removes an arbitrator.  Admin-authorized.
    pub fn unregister_arbitrator(&mut self, arbitrator: u64) -> (r: Result<(), ArbitrationError>)
        requires
            old(self).wf(),
        ensures
            final(self).wf(),
            r is Ok <==> old(self).admin is Some,
            r is Err ==> *final(self) == *old(self) && r == Err::<(), _>(
                ArbitrationError::NotInitialized,
            ),
            r is Ok ==> {
                &&& final(self).arbitrators@ == old(self).arbitrators@.insert(arbitrator, 0)
                &&& final(self).spec_weight_of(arbitrator) == 0
                &&& final(self).admin == old(self).admin
                &&& final(self).disputes@ == old(self).disputes@
                &&& final(self).dispute_counter == old(self).dispute_counter
                &&& final(self).tallies@ == old(self).tallies@
                &&& final(self).outcome_lists@ == old(self).outcome_lists@
                &&& final(self).voted@ == old(self).voted@
            },
    {
        if self.admin.is_none() {
            return Err(ArbitrationError::NotInitialized);
        }
        self.arbitrators.set(arbitrator, 0);
        Ok(())
    }

    /// What `create_dispute` decides on this state and input.
    pub open spec fn spec_create_dispute(&self, now: u64, duration: u64) -> Result<
        u64,
        ArbitrationError,
    > {
        if self.dispute_counter == u64::MAX {
            Err(ArbitrationError::Overflow)
        } else if now + duration > u64::MAX {
            Err(ArbitrationError::Overflow)
        } else {
            Ok(self.dispute_counter)
        }
    }

    /// Opens a dispute with a voting window from now until `now + duration`.
    pub fn create_dispute(&mut self, now: u64, creator: u64, description: u64, duration: u64)
        -> (r: Result<u64, ArbitrationError>)
        requires
            old(self).wf(),
        ensures
            final(self).wf(),
            r == old(self).spec_create_dispute(now, duration),
            r is Err ==> *final(self) == *old(self),
            r matches Ok(id) ==> {
                let d = ArbitrationDispute {
                    id,
                    creator,
                    description,
                    voting_start: now,
                    voting_end: (now + duration) as u64,
                    resolved: false,
                    outcome: 0,
                };
                &&& id == old(self).dispute_counter
                &&& final(self).dispute_counter == id + 1
                &&& final(self).disputes@ == old(self).disputes@.insert(id, d)
                &&& final(self).admin == old(self).admin
                &&& final(self).arbitrators@ == old(self).arbitrators@
                &&& final(self).tallies@ == old(self).tallies@
                &&& final(self).outcome_lists@ == old(self).outcome_lists@
                &&& final(self).voted@ == old(self).voted@
            },
    {
        let id = self.dispute_counter;
        if id == u64::MAX {
            return Err(ArbitrationError::Overflow);
        }
        if duration > u64::MAX - now {
            return Err(ArbitrationError::Overflow);
        }
        self.dispute_counter = id + 1;
        let dispute = ArbitrationDispute {
            id,
            creator,
            description,
            voting_start: now,
            voting_end: now + duration,
            resolved: false,
            outcome: 0,
        };
        self.disputes.set(id, dispute);
        Ok(id)
    }

    /// The total voted weight for an outcome of a dispute.
    pub open spec fn spec_tally(&self, dispute_id: u64, outcome: u32) -> i128 {
        if self.tallies@.dom().contains((dispute_id, outcome as u64)) {
            self.tallies@[(dispute_id, outcome as u64)]
        } else {
            0
        }
    }

    /// The distinct outcomes that received votes on a dispute.
    pub open spec fn spec_outcomes(&self, dispute_id: u64) -> Seq<u32> {
        if self.outcome_lists@.dom().contains(dispute_id) {
            self.outcome_lists@[dispute_id]@
        } else {
            Seq::empty()
        }
    }

    /// What `vote` decides on this state and input.
    pub open spec fn spec_vote(&self, now: u64, voter: u64, dispute_id: u64, outcome: u32)
        -> Result<(), ArbitrationError> {
        if outcome == 0 {
            Err(ArbitrationError::InvalidOutcome)
        } else if self.spec_weight_of(voter) <= 0 {
            Err(ArbitrationError::NotArbitrator)
        } else if !self.disputes@.dom().contains(dispute_id) {
            Err(ArbitrationError::DisputeNotFound)
        } else if now < self.disputes@[dispute_id].voting_start || now
            > self.disputes@[dispute_id].voting_end {
            Err(ArbitrationError::VotingInactive)
        } else if self.disputes@[dispute_id].resolved {
            Err(ArbitrationError::AlreadyResolved)
        } else if self.voted@.dom().contains((dispute_id, voter)) {
            Err(ArbitrationError::AlreadyVoted)
        } else if self.spec_tally(dispute_id, outcome) + self.spec_weight_of(voter) > i128::MAX {
            Err(ArbitrationError::Overflow)
        } else {
            Ok(())
        }
    }

    /// Casts a weighted vote for a positive outcome, within the voting
    /// window, once per arbitrator and dispute.
    pub fn vote(&mut self, now: u64, voter: u64, dispute_id: u64, outcome: u32) -> (r: Result<
        (),
        ArbitrationError,
    >)
        requires
            old(self).wf(),
        ensures
            final(self).wf(),
            r == old(self).spec_vote(now, voter, dispute_id, outcome),
            r is Err ==> *final(self) == *old(self),
            r is Ok ==> {
                &&& final(self).tallies@ == old(self).tallies@.insert(
                    (dispute_id, outcome as u64),
                    (old(self).spec_tally(dispute_id, outcome) + old(self).spec_weight_of(
                        voter,
                    )) as i128,
                )
                &&& final(self).voted@ == old(self).voted@.insert((dispute_id, voter), true)
                &&& final(self).spec_outcomes(dispute_id) == if old(self).spec_outcomes(
                    dispute_id,
                ).contains(outcome) {
                    old(self).spec_outcomes(dispute_id)
                } else {
                    old(self).spec_outcomes(dispute_id).push(outcome)
                }
                &&& forall|d: u64|
                    d != dispute_id ==> final(self).spec_outcomes(d) == old(self).spec_outcomes(d)
                &&& final(self).admin == old(self).admin
                &&& final(self).arbitrators@ == old(self).arbitrators@
                &&& final(self).disputes@ == old(self).disputes@
                &&& final(self).dispute_counter == old(self).dispute_counter
            },
    {
        if outcome == 0 {
            return Err(ArbitrationError::InvalidOutcome);
        }
        let weight = match self.arbitrators.get(voter) {
            Some(w) => *w,
            None => 0,
        };
        if weight <= 0 {
            return Err(ArbitrationError::NotArbitrator);
        }
        let dispute = match self.disputes.get(dispute_id) {
            None => {
                return Err(ArbitrationError::DisputeNotFound);
            },
            Some(d) => *d,
        };
        if now < dispute.voting_start || now > dispute.voting_end {
            return Err(ArbitrationError::VotingInactive);
        }
        if dispute.resolved {
            return Err(ArbitrationError::AlreadyResolved);
        }
        if self.voted.contains((dispute_id, voter)) {
            return Err(ArbitrationError::AlreadyVoted);
        }
        let current_tally = match self.tallies.get((dispute_id, outcome as u64)) {
            Some(t) => *t,
            None => 0,
        };
        if current_tally > i128::MAX - weight {
            return Err(ArbitrationError::Overflow);
        }
        self.voted.set((dispute_id, voter), true);
        self.tallies.set((dispute_id, outcome as u64), current_tally + weight);
        let list = match self.outcome_lists.get(dispute_id) {
            Some(v) => copy_u32_vec(v),
            None => Vec::new(),
        };
        let mut present = false;
        let n = list.len();
        let mut i: usize = 0;
        while i < n
            invariant
                i <= n,
                n == list@.len(),
                present <==> exists|j: int| 0 <= j < i && list@[j] == outcome,
            decreases n - i,
        {
            if list[i] == outcome {
                present = true;
            }
            i = i + 1;
        }
        if !present {
            let mut list2 = list;
            list2.push(outcome);
            self.outcome_lists.set(dispute_id, list2);
        } else {
            self.outcome_lists.set(dispute_id, list);
        }
        Ok(())
    }

    /// The highest total weight any outcome of the dispute reached; -1 when
    /// no outcome received votes.
    pub open spec fn spec_max_tally(&self, dispute_id: u64, os: Seq<u32>) -> int
        decreases os.len(),
    {
        if os.len() == 0 {
            -1
        } else {
            let m = self.spec_max_tally(dispute_id, os.drop_last());
            if self.spec_tally(dispute_id, os.last()) > m {
                self.spec_tally(dispute_id, os.last()) as int
            } else {
                m
            }
        }
    }

    /// How many listed outcomes reached the weight `m`.
    pub open spec fn spec_achievers(&self, dispute_id: u64, os: Seq<u32>, m: int) -> int
        decreases os.len(),
    {
        if os.len() == 0 {
            0
        } else {
            self.spec_achievers(dispute_id, os.drop_last(), m) + if self.spec_tally(
                dispute_id,
                os.last(),
            ) == m {
                1int
            } else {
                0int
            }
        }
    }

    /// The first listed outcome that reached the weight `m`.
    pub open spec fn spec_first_achiever(&self, dispute_id: u64, os: Seq<u32>, m: int) -> u32
        decreases os.len(),
    {
        if os.len() == 0 {
            0
        } else if self.spec_achievers(dispute_id, os.drop_last(), m) > 0 {
            self.spec_first_achiever(dispute_id, os.drop_last(), m)
        } else if self.spec_tally(dispute_id, os.last()) == m {
            os.last()
        } else {
            0
        }
    }

    /// The outcome `resolve_dispute` settles on: the outcome with the highest
    /// total weight, or 0 when no votes were cast or the highest weight is
    /// tied between outcomes.
    pub open spec fn spec_winner(&self, dispute_id: u64) -> u32 {
        let os = self.spec_outcomes(dispute_id);
        let m = self.spec_max_tally(dispute_id, os);
        if self.spec_achievers(dispute_id, os, m) >= 2 {
            0
        } else {
            self.spec_first_achiever(dispute_id, os, m)
        }
    }

    /// What `resolve_dispute` decides on this state and input.
    pub open spec fn spec_resolve(&self, now: u64, dispute_id: u64) -> Result<
        u32,
        ArbitrationError,
    > {
        if !self.disputes@.dom().contains(dispute_id) {
            Err(ArbitrationError::DisputeNotFound)
        } else if self.disputes@[dispute_id].resolved {
            Err(ArbitrationError::AlreadyResolved)
        } else if now <= self.disputes@[dispute_id].voting_end {
            Err(ArbitrationError::VotingInactive)
        } else {
            Ok(self.spec_winner(dispute_id))
        }
    }

    /// Resolves a dispute after its voting window: the outcome with the
    /// highest total weight wins; a tie for the highest weight (or no votes
    /// at all) leaves outcome 0.
    pub fn resolve_dispute(&mut self, now: u64, dispute_id: u64) -> (r: Result<
        u32,
        ArbitrationError,
    >)
        requires
            old(self).wf(),
        ensures
            final(self).wf(),
            r == old(self).spec_resolve(now, dispute_id),
            r is Err ==> *final(self) == *old(self),
            r matches Ok(w) ==> {
                let d = old(self).disputes@[dispute_id];
                &&& final(self).disputes@ == old(self).disputes@.insert(
                    dispute_id,
                    ArbitrationDispute { resolved: true, outcome: w, ..d },
                )
                &&& final(self).admin == old(self).admin
                &&& final(self).arbitrators@ == old(self).arbitrators@
                &&& final(self).dispute_counter == old(self).dispute_counter
                &&& final(self).tallies@ == old(self).tallies@
                &&& final(self).outcome_lists@ == old(self).outcome_lists@
                &&& final(self).voted@ == old(self).voted@
            },
    {
        let dispute = match self.disputes.get(dispute_id) {
            None => {
                return Err(ArbitrationError::DisputeNotFound);
            },
            Some(d) => *d,
        };
        if dispute.resolved {
            return Err(ArbitrationError::AlreadyResolved);
        }
        if now <= dispute.voting_end {
            return Err(ArbitrationError::VotingInactive);
        }
        let empty: Vec<u32> = Vec::new();
        let list = match self.outcome_lists.get(dispute_id) {
            Some(v) => v,
            None => &empty,
        };
        let ghost os = self.spec_outcomes(dispute_id);
        proof {
            assert(list@ =~= os);
        }
        let n = list.len();
        let mut max_weight: i128 = -1;
        let mut i: usize = 0;
        while i < n
            invariant
                i <= n,
                n == list@.len(),
                list@ == os,
                self.wf(),
                max_weight == self.spec_max_tally(dispute_id, os.take(i as int)),
                max_weight >= -1,
            decreases n - i,
        {
            proof {
                assert(os.take(i as int + 1).drop_last() =~= os.take(i as int));
            }
            let o = list[i];
            let t = match self.tallies.get((dispute_id, o as u64)) {
                Some(t) => *t,
                None => 0,
            };
            if t > max_weight {
                max_weight = t;
            }
            i = i + 1;
        }
        proof {
            assert(os.take(n as int) =~= os);
        }
        let mut achievers: u64 = 0;
        let mut first: u32 = 0;
        let mut i: usize = 0;
        while i < n
            invariant
                i <= n,
                n == list@.len(),
                list@ == os,
                self.wf(),
                max_weight == self.spec_max_tally(dispute_id, os),
                achievers == self.spec_achievers(dispute_id, os.take(i as int), max_weight as int),
                achievers > 0 ==> first == self.spec_first_achiever(
                    dispute_id,
                    os.take(i as int),
                    max_weight as int,
                ),
                achievers == 0 ==> first == 0,
                achievers <= i,
            decreases n - i,
        {
            proof {
                assert(os.take(i as int + 1).drop_last() =~= os.take(i as int));
            }
            let o = list[i];
            let t = match self.tallies.get((dispute_id, o as u64)) {
                Some(t) => *t,
                None => 0,
            };
            if t == max_weight {
                if achievers == 0 {
                    first = o;
                }
                achievers = achievers + 1;
            }
            i = i + 1;
        }
        proof {
            assert(os.take(n as int) =~= os);
        }
        let winning_outcome = if achievers >= 2 {
            0
        } else {
            first
        };
        proof {
            if achievers < 2 && achievers == 0 {
                assert(self.spec_first_achiever(dispute_id, os, max_weight as int) == 0) by {
                    Self::lemma_no_achiever_first_zero(*self, dispute_id, os, max_weight as int);
                }
            }
        }
        let updated = ArbitrationDispute { resolved: true, outcome: winning_outcome, ..dispute };
        self.disputes.set(dispute_id, updated);
        Ok(winning_outcome)
    }

    /// With no achiever, the first-achiever answer is zero.
    proof fn lemma_no_achiever_first_zero(
        s: CredenceArbitration,
        dispute_id: u64,
        os: Seq<u32>,
        m: int,
    )
        requires
            s.spec_achievers(dispute_id, os, m) == 0,
        ensures
            s.spec_first_achiever(dispute_id, os, m) == 0,
        decreases os.len(),
    {
        if os.len() > 0 {
            Self::lemma_achievers_nonneg(s, dispute_id, os.drop_last(), m);
            Self::lemma_no_achiever_first_zero(s, dispute_id, os.drop_last(), m);
        }
    }

    /// An achiever count is never negative.
    proof fn lemma_achievers_nonneg(s: CredenceArbitration, dispute_id: u64, os: Seq<u32>, m: int)
        ensures
            s.spec_achievers(dispute_id, os, m) >= 0,
        decreases os.len(),
    {
        if os.len() > 0 {
            Self::lemma_achievers_nonneg(s, dispute_id, os.drop_last(), m);
        }
    }

    /// Looks a dispute up by id.
    pub fn get_dispute(&self, dispute_id: u64) -> (r: Result<ArbitrationDispute, ArbitrationError>)
        requires
            self.wf(),
        ensures
            r == if self.disputes@.dom().contains(dispute_id) {
                Ok::<_, ArbitrationError>(self.disputes@[dispute_id])
            } else {
                Err::<ArbitrationDispute, _>(ArbitrationError::DisputeNotFound)
            },
    {
        match self.disputes.get(dispute_id) {
            Some(d) => Ok(*d),
            None => Err(ArbitrationError::DisputeNotFound),
        }
    }

    /// The current total weight for an outcome of a dispute.
    pub fn get_tally(&self, dispute_id: u64, outcome: u32) -> (r: i128)
        requires
            self.wf(),
        ensures
            r == self.spec_tally(dispute_id, outcome),
    {
        match self.tallies.get((dispute_id, outcome as u64)) {
            Some(t) => *t,
            None => 0,
        }
    }
}

/// Copies a vector of outcomes.
fn copy_u32_vec(v: &Vec<u32>) -> (r: Vec<u32>)
    ensures
        r@ == v@,
{
    let n = v.len();
    let mut out: Vec<u32> = Vec::new();
    let mut i: usize = 0;
    while i < n
        invariant
            i <= n,
            n == v@.len(),
            out@ == v@.take(i as int),
        decreases n - i,
    {
        out.push(v[i]);
        proof {
            assert(out@ =~= v@.take(i as int + 1));
        }
        i = i + 1;
    }
    proof {
        assert(v@.take(n as int) =~= v@);
    }
    out
}

} // verus!
