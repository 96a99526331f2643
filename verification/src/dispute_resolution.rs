//! Dispute resolution: staked disputes over slash requests, arbitrator
//! votes, and deadline-driven resolution or expiry.
//!
//! The host pulls the disputer's stake in on creation and refunds it when a
//! dispute resolves in the disputer's favour; it can read the outcome from
//! the stored dispute after `resolve_dispute` returns.

use vstd::prelude::*;
use crate::kv::{KvMap, KvMap2};

verus! {

/// Smallest stake a dispute may post.
pub const MIN_STAKE: i128 = 100;

/// Lifecycle of a dispute.
#[derive(Clone, Copy, Debug, PartialEq, Eq, Structural)]
pub enum DisputeStatus {
    Open,
    Resolved,
    Rejected,
    Expired,
}

/// How a resolved dispute came out.
#[derive(Clone, Copy, Debug, PartialEq, Eq, Structural)]
pub enum DisputeOutcome {
    Undecided,
    FavorDisputer,
    FavorSlasher,
}

/// Why a dispute call was refused.
#[derive(Clone, Copy, Debug, PartialEq, Eq, Structural)]
pub enum Error {
    DisputeNotFound,
    AlreadyVoted,
    DisputeNotOpen,
    DeadlineNotReached,
    DeadlineExpired,
    Unauthorized,
    InsufficientStake,
    InvalidDeadline,
    TransferFailed,
}

/// A staked dispute over a slash request.
#[derive(Clone, Copy, Debug, PartialEq, Eq, Structural)]
pub struct Dispute {
    pub id: u64,
    pub disputer: u64,
    pub slash_request_id: u64,
    pub stake: i128,
    pub token: u64,
    pub status: DisputeStatus,
    pub outcome: DisputeOutcome,
    pub deadline: u64,
    pub votes_for_disputer: u64,
    pub votes_for_slasher: u64,
    pub created_at: u64,
}

/// Event: a dispute was created.
#[derive(Clone, Copy, Debug, PartialEq, Eq, Structural)]
pub struct DisputeCreated {
    pub dispute_id: u64,
    pub disputer: u64,
    pub slash_request_id: u64,
    pub stake: i128,
    pub deadline: u64,
}

/// Event: an arbitrator voted.
#[derive(Clone, Copy, Debug, PartialEq, Eq, Structural)]
pub struct VoteCast {
    pub dispute_id: u64,
    pub arbitrator: u64,
    pub favor_disputer: bool,
}

/// Event: a dispute was resolved.
#[derive(Clone, Copy, Debug, PartialEq, Eq, Structural)]
pub struct DisputeResolved {
    pub dispute_id: u64,
    pub outcome: DisputeOutcome,
    pub votes_for_disputer: u64,
    pub votes_for_slasher: u64,
}

/// Event: a dispute expired unresolved.
#[derive(Clone, Copy, Debug, PartialEq, Eq, Structural)]
pub struct DisputeExpired {
    pub dispute_id: u64,
    pub expired_at: u64,
}

/// One entry of the dispute contract's audit stream.
#[derive(Clone, Copy, Debug, PartialEq, Eq, Structural)]
pub enum DisputeEvent {
    Created(DisputeCreated),
    Vote(VoteCast),
    Resolved(DisputeResolved),
    Expired(DisputeExpired),
}

/// One deployment of the dispute-resolution contract.
pub struct DisputeContract {
    /// Disputes by id; ids are assigned sequentially from one.
    pub disputes: KvMap<Dispute>,
    /// The id most recently assigned (zero before the first dispute).
    pub dispute_counter: u64,
    /// Votes by (dispute id, arbitrator): true favours the disputer.
    pub votes: KvMap2<bool>,
    /// The append-only audit-event stream.
    pub events: Vec<DisputeEvent>,
}

impl DisputeContract {
    /// Well-formedness: the stores are well shaped.
    pub open spec fn wf(&self) -> bool {
        &&& self.disputes.wf()
        &&& self.votes.wf()
    }

    /// A fresh deployment with no disputes.
    pub fn new() -> (r: Self)
        ensures
            r.wf(),
            r.dispute_counter == 0,
            r.disputes@ =~= Map::<u64, Dispute>::empty(),
            r.votes@ =~= Map::<(u64, u64), bool>::empty(),
            r.events@ =~= Seq::<DisputeEvent>::empty(),
    {
        DisputeContract {
            disputes: KvMap::new(),
            dispute_counter: 0,
            votes: KvMap2::new(),
            events: Vec::new(),
        }
    }

    /// What `create_dispute` decides on this state and input.
    pub open spec fn spec_create_dispute(&self, stake: i128, resolution_deadline: u64) -> Result<
        u64,
        Error,
    > {
        if stake < MIN_STAKE {
            Err(Error::InsufficientStake)
        } else if resolution_deadline == 0 {
            Err(Error::InvalidDeadline)
        } else {
            Ok((self.dispute_counter + 1) as u64)
        }
    }

    /// Opens a dispute over a slash request: the disputer posts a stake of at
    /// least `MIN_STAKE` (the host pulls it in) and names a voting window.
    /// The deadline is `now + resolution_deadline`; both it and the next id
    /// must stay representable, which the host's clock guarantees in
    /// practice.
    pub fn create_dispute(
        &mut self,
        now: u64,
        disputer: u64,
        slash_request_id: u64,
        stake: i128,
        token: u64,
        resolution_deadline: u64,
    ) -> (r: Result<u64, Error>)
        requires
            old(self).wf(),
            now + resolution_deadline <= u64::MAX,
            old(self).dispute_counter < u64::MAX,
        ensures
            final(self).wf(),
            r == old(self).spec_create_dispute(stake, resolution_deadline),
            r is Err ==> {
                &&& final(self).disputes@ == old(self).disputes@
                &&& final(self).votes@ == old(self).votes@
                &&& final(self).dispute_counter == old(self).dispute_counter
                &&& final(self).events@ == old(self).events@
            },
            r matches Ok(id) ==> {
                let d = Dispute {
                    id,
                    disputer,
                    slash_request_id,
                    stake,
                    token,
                    status: DisputeStatus::Open,
                    outcome: DisputeOutcome::Undecided,
                    deadline: (now + resolution_deadline) as u64,
                    votes_for_disputer: 0,
                    votes_for_slasher: 0,
                    created_at: now,
                };
                &&& id == old(self).dispute_counter + 1
                &&& final(self).dispute_counter == id
                &&& final(self).disputes@ == old(self).disputes@.insert(id, d)
                &&& final(self).votes@ == old(self).votes@
                &&& final(self).events@ == old(self).events@.push(
                    DisputeEvent::Created(
                        DisputeCreated {
                            dispute_id: id,
                            disputer,
                            slash_request_id,
                            stake,
                            deadline: d.deadline,
                        },
                    ),
                )
            },
    {
        if stake < MIN_STAKE {
            return Err(Error::InsufficientStake);
        }
        if resolution_deadline == 0 {
            return Err(Error::InvalidDeadline);
        }
        let deadline = now + resolution_deadline;
        let dispute_id = self.dispute_counter + 1;
        let dispute = Dispute {
            id: dispute_id,
            disputer,
            slash_request_id,
            stake,
            token,
            status: DisputeStatus::Open,
            outcome: DisputeOutcome::Undecided,
            deadline,
            votes_for_disputer: 0,
            votes_for_slasher: 0,
            created_at: now,
        };
        self.disputes.set(dispute_id, dispute);
        self.dispute_counter = dispute_id;
        self.events.push(
            DisputeEvent::Created(
                DisputeCreated { dispute_id, disputer, slash_request_id, stake, deadline },
            ),
        );
        Ok(dispute_id)
    }

    /// Looks a dispute up by id.
    pub fn get_dispute(&self, dispute_id: u64) -> (r: Result<Dispute, Error>)
        requires
            self.wf(),
        ensures
            r == if self.disputes@.dom().contains(dispute_id) {
                Ok::<_, Error>(self.disputes@[dispute_id])
            } else {
                Err::<Dispute, _>(Error::DisputeNotFound)
            },
    {
        match self.disputes.get(dispute_id) {
            Some(d) => Ok(*d),
            None => Err(Error::DisputeNotFound),
        }
    }

    /// What `cast_vote` decides on this state and input.
    pub open spec fn spec_cast_vote(&self, now: u64, arbitrator: u64, dispute_id: u64) -> Result<
        (),
        Error,
    > {
        if !self.disputes@.dom().contains(dispute_id) {
            Err(Error::DisputeNotFound)
        } else if self.disputes@[dispute_id].status != DisputeStatus::Open {
            Err(Error::DisputeNotOpen)
        } else if now > self.disputes@[dispute_id].deadline {
            Err(Error::DeadlineExpired)
        } else if self.votes@.dom().contains((dispute_id, arbitrator)) {
            Err(Error::AlreadyVoted)
        } else {
            Ok(())
        }
    }

    /// Records an arbitrator's vote on an open dispute before its deadline;
    /// one vote per arbitrator.
    pub fn cast_vote(&mut self, now: u64, arbitrator: u64, dispute_id: u64, favor_disputer: bool)
        -> (r: Result<(), Error>)
        requires
            old(self).wf(),
            old(self).disputes@.dom().contains(dispute_id) ==> old(
                self,
            ).disputes@[dispute_id].votes_for_disputer < u64::MAX && old(
                self,
            ).disputes@[dispute_id].votes_for_slasher < u64::MAX,
        ensures
            final(self).wf(),
            r == old(self).spec_cast_vote(now, arbitrator, dispute_id),
            r is Err ==> {
                &&& final(self).disputes@ == old(self).disputes@
                &&& final(self).votes@ == old(self).votes@
                &&& final(self).dispute_counter == old(self).dispute_counter
                &&& final(self).events@ == old(self).events@
            },
            r is Ok ==> {
                let d = old(self).disputes@[dispute_id];
                let d2 = if favor_disputer {
                    Dispute { votes_for_disputer: (d.votes_for_disputer + 1) as u64, ..d }
                } else {
                    Dispute { votes_for_slasher: (d.votes_for_slasher + 1) as u64, ..d }
                };
                &&& final(self).disputes@ == old(self).disputes@.insert(dispute_id, d2)
                &&& final(self).votes@ == old(self).votes@.insert(
                    (dispute_id, arbitrator),
                    favor_disputer,
                )
                &&& final(self).dispute_counter == old(self).dispute_counter
                &&& final(self).events@ == old(self).events@.push(
                    DisputeEvent::Vote(VoteCast { dispute_id, arbitrator, favor_disputer }),
                )
            },
    {
        let dispute = match self.disputes.get(dispute_id) {
            None => {
                return Err(Error::DisputeNotFound);
            },
            Some(d) => *d,
        };
        if !matches!(dispute.status, DisputeStatus::Open) {
            return Err(Error::DisputeNotOpen);
        }
        if now > dispute.deadline {
            return Err(Error::DeadlineExpired);
        }
        if self.votes.contains((dispute_id, arbitrator)) {
            return Err(Error::AlreadyVoted);
        }
        self.votes.set((dispute_id, arbitrator), favor_disputer);
        let updated = if favor_disputer {
            Dispute { votes_for_disputer: dispute.votes_for_disputer + 1, ..dispute }
        } else {
            Dispute { votes_for_slasher: dispute.votes_for_slasher + 1, ..dispute }
        };
        self.disputes.set(dispute_id, updated);
        self.events.push(
            DisputeEvent::Vote(VoteCast { dispute_id, arbitrator, favor_disputer }),
        );
        Ok(())
    }

    /// What `resolve_dispute` and `expire_dispute` both check first.
    pub open spec fn spec_closable(&self, now: u64, dispute_id: u64) -> Result<(), Error> {
        if !self.disputes@.dom().contains(dispute_id) {
            Err(Error::DisputeNotFound)
        } else if self.disputes@[dispute_id].status != DisputeStatus::Open {
            Err(Error::DisputeNotOpen)
        } else if now <= self.disputes@[dispute_id].deadline {
            Err(Error::DeadlineNotReached)
        } else {
            Ok(())
        }
    }

    /// Resolves an open dispute after its deadline: in the disputer's favour
    /// when strictly more votes favour the disputer (the host then refunds
    /// the stake), else in the slasher's favour.
    pub fn resolve_dispute(&mut self, now: u64, dispute_id: u64) -> (r: Result<(), Error>)
        requires
            old(self).wf(),
        ensures
            final(self).wf(),
            r == old(self).spec_closable(now, dispute_id),
            r is Err ==> {
                &&& final(self).disputes@ == old(self).disputes@
                &&& final(self).votes@ == old(self).votes@
                &&& final(self).dispute_counter == old(self).dispute_counter
                &&& final(self).events@ == old(self).events@
            },
            r is Ok ==> {
                let d = old(self).disputes@[dispute_id];
                let outcome = if d.votes_for_disputer > d.votes_for_slasher {
                    DisputeOutcome::FavorDisputer
                } else {
                    DisputeOutcome::FavorSlasher
                };
                &&& final(self).disputes@ == old(self).disputes@.insert(
                    dispute_id,
                    Dispute { status: DisputeStatus::Resolved, outcome, ..d },
                )
                &&& final(self).votes@ == old(self).votes@
                &&& final(self).dispute_counter == old(self).dispute_counter
                &&& final(self).events@ == old(self).events@.push(
                    DisputeEvent::Resolved(
                        DisputeResolved {
                            dispute_id,
                            outcome,
                            votes_for_disputer: d.votes_for_disputer,
                            votes_for_slasher: d.votes_for_slasher,
                        },
                    ),
                )
            },
    {
        let dispute = match self.disputes.get(dispute_id) {
            None => {
                return Err(Error::DisputeNotFound);
            },
            Some(d) => *d,
        };
        if !matches!(dispute.status, DisputeStatus::Open) {
            return Err(Error::DisputeNotOpen);
        }
        if now <= dispute.deadline {
            return Err(Error::DeadlineNotReached);
        }
        let outcome = if dispute.votes_for_disputer > dispute.votes_for_slasher {
            DisputeOutcome::FavorDisputer
        } else {
            DisputeOutcome::FavorSlasher
        };
        let updated = Dispute { status: DisputeStatus::Resolved, outcome, ..dispute };
        self.disputes.set(dispute_id, updated);
        self.events.push(
            DisputeEvent::Resolved(
                DisputeResolved {
                    dispute_id,
                    outcome,
                    votes_for_disputer: dispute.votes_for_disputer,
                    votes_for_slasher: dispute.votes_for_slasher,
                },
            ),
        );
        Ok(())
    }

    /// Marks an open dispute expired once its deadline has passed.
    pub fn expire_dispute(&mut self, now: u64, dispute_id: u64) -> (r: Result<(), Error>)
        requires
            old(self).wf(),
        ensures
            final(self).wf(),
            r == old(self).spec_closable(now, dispute_id),
            r is Err ==> {
                &&& final(self).disputes@ == old(self).disputes@
                &&& final(self).votes@ == old(self).votes@
                &&& final(self).dispute_counter == old(self).dispute_counter
                &&& final(self).events@ == old(self).events@
            },
            r is Ok ==> {
                let d = old(self).disputes@[dispute_id];
                &&& final(self).disputes@ == old(self).disputes@.insert(
                    dispute_id,
                    Dispute { status: DisputeStatus::Expired, ..d },
                )
                &&& final(self).votes@ == old(self).votes@
                &&& final(self).dispute_counter == old(self).dispute_counter
                &&& final(self).events@ == old(self).events@.push(
                    DisputeEvent::Expired(DisputeExpired { dispute_id, expired_at: now }),
                )
            },
    {
        let dispute = match self.disputes.get(dispute_id) {
            None => {
                return Err(Error::DisputeNotFound);
            },
            Some(d) => *d,
        };
        if !matches!(dispute.status, DisputeStatus::Open) {
            return Err(Error::DisputeNotOpen);
        }
        if now <= dispute.deadline {
            return Err(Error::DeadlineNotReached);
        }
        let updated = Dispute { status: DisputeStatus::Expired, ..dispute };
        self.disputes.set(dispute_id, updated);
        self.events.push(
            DisputeEvent::Expired(DisputeExpired { dispute_id, expired_at: now }),
        );
        Ok(())
    }

    /// Whether the arbitrator has voted on the dispute.
    pub fn has_voted(&self, dispute_id: u64, arbitrator: u64) -> (r: bool)
        requires
            self.wf(),
        ensures
            r == self.votes@.dom().contains((dispute_id, arbitrator)),
    {
        self.votes.contains((dispute_id, arbitrator))
    }

    /// The id most recently assigned to a dispute.
    pub fn get_dispute_count(&self) -> (r: u64)
        ensures
            r == self.dispute_counter,
    {
        self.dispute_counter
    }
}

} // verus!
