//! Dispute resolution: staked disputes, arbitrator votes, deadlines.

use credence_bond::dispute_resolution::{
    DisputeContract, DisputeOutcome, DisputeStatus, Error,
};

fn setup() -> DisputeContract {
    DisputeContract::new()
}

#[test]
fn test_create_dispute_success() {
    let mut c = setup();
    let disputer: u64 = 2;
    let token: u64 = 90;
    let dispute_id = c.create_dispute(0, disputer, 1, 500, token, 3600).unwrap();
    assert_eq!(dispute_id, 1);
    let dispute = c.get_dispute(dispute_id).unwrap();
    assert_eq!(dispute.disputer, disputer);
    assert_eq!(dispute.slash_request_id, 1);
    assert_eq!(dispute.stake, 500);
    assert_eq!(dispute.status, DisputeStatus::Open);
    assert_eq!(dispute.outcome, DisputeOutcome::Undecided);
    assert_eq!(dispute.votes_for_disputer, 0);
    assert_eq!(dispute.votes_for_slasher, 0);
}

#[test]
fn test_create_dispute_sets_deadline() {
    let mut c = setup();
    let now: u64 = 1234;
    let duration: u64 = 3600;
    let id = c.create_dispute(now, 2, 1, 500, 90, duration).unwrap();
    let dispute = c.get_dispute(id).unwrap();
    assert_eq!(dispute.deadline, now + duration);
}

#[test]
fn test_create_dispute_fails_insufficient_stake() {
    let mut c = setup();
    assert_eq!(
        c.create_dispute(0, 2, 1, 50, 90, 3600),
        Err(Error::InsufficientStake)
    );
}

#[test]
fn test_create_dispute_fails_invalid_deadline() {
    let mut c = setup();
    assert_eq!(
        c.create_dispute(0, 2, 1, 500, 90, 0),
        Err(Error::InvalidDeadline)
    );
}

#[test]
fn test_create_multiple_disputes_increments_counter() {
    let mut c = setup();
    let id1 = c.create_dispute(0, 2, 1, 500, 90, 3600).unwrap();
    let id2 = c.create_dispute(0, 3, 2, 500, 90, 3600).unwrap();
    assert_eq!(id1, 1);
    assert_eq!(id2, 2);
    assert_eq!(c.get_dispute_count(), 2);
}

#[test]
fn test_cast_vote_favor_disputer() {
    let mut c = setup();
    let id = c.create_dispute(0, 2, 1, 500, 90, 3600).unwrap();
    c.cast_vote(10, 7, id, true).unwrap();
    let dispute = c.get_dispute(id).unwrap();
    assert_eq!(dispute.votes_for_disputer, 1);
    assert_eq!(dispute.votes_for_slasher, 0);
}

#[test]
fn test_cast_vote_favor_slasher() {
    let mut c = setup();
    let id = c.create_dispute(0, 2, 1, 500, 90, 3600).unwrap();
    c.cast_vote(10, 7, id, false).unwrap();
    let dispute = c.get_dispute(id).unwrap();
    assert_eq!(dispute.votes_for_disputer, 0);
    assert_eq!(dispute.votes_for_slasher, 1);
}

#[test]
fn test_cast_vote_fails_already_voted() {
    let mut c = setup();
    let id = c.create_dispute(0, 2, 1, 500, 90, 3600).unwrap();
    c.cast_vote(10, 7, id, true).unwrap();
    assert_eq!(c.cast_vote(11, 7, id, false), Err(Error::AlreadyVoted));
}

#[test]
fn test_cast_vote_fails_after_deadline() {
    let mut c = setup();
    let id = c.create_dispute(0, 2, 1, 500, 90, 3600).unwrap();
    assert_eq!(c.cast_vote(3601, 7, id, true), Err(Error::DeadlineExpired));
}

#[test]
fn test_cast_vote_fails_dispute_not_found() {
    let mut c = setup();
    assert_eq!(c.cast_vote(0, 7, 42, true), Err(Error::DisputeNotFound));
}

#[test]
fn test_has_voted_true_and_false() {
    let mut c = setup();
    let id = c.create_dispute(0, 2, 1, 500, 90, 3600).unwrap();
    let arbitrator: u64 = 7;
    let other: u64 = 8;
    assert!(!c.has_voted(id, arbitrator));
    c.cast_vote(10, arbitrator, id, true).unwrap();
    assert!(c.has_voted(id, arbitrator));
    assert!(!c.has_voted(id, other));
}

#[test]
fn test_multiple_arbitrators_vote() {
    let mut c = setup();
    let id = c.create_dispute(0, 2, 1, 500, 90, 3600).unwrap();
    for arb in [7_u64, 8, 9] {
        c.cast_vote(10, arb, id, true).unwrap();
    }
    for arb in [17_u64, 18] {
        c.cast_vote(10, arb, id, false).unwrap();
    }
    let dispute = c.get_dispute(id).unwrap();
    assert_eq!(dispute.votes_for_disputer, 3);
    assert_eq!(dispute.votes_for_slasher, 2);
}

#[test]
fn test_resolve_dispute_favor_disputer() {
    let mut c = setup();
    let id = c.create_dispute(0, 2, 1, 500, 90, 3600).unwrap();
    c.cast_vote(10, 7, id, true).unwrap();
    c.resolve_dispute(3601, id).unwrap();
    let dispute = c.get_dispute(id).unwrap();
    assert_eq!(dispute.status, DisputeStatus::Resolved);
    assert_eq!(dispute.outcome, DisputeOutcome::FavorDisputer);
}

#[test]
fn test_resolve_dispute_favor_slasher() {
    let mut c = setup();
    let id = c.create_dispute(0, 2, 1, 500, 90, 3600).unwrap();
    c.cast_vote(10, 7, id, false).unwrap();
    c.resolve_dispute(3601, id).unwrap();
    let dispute = c.get_dispute(id).unwrap();
    assert_eq!(dispute.status, DisputeStatus::Resolved);
    assert_eq!(dispute.outcome, DisputeOutcome::FavorSlasher);
}

#[test]
fn test_resolve_dispute_tie_favors_slasher() {
    let mut c = setup();
    let id = c.create_dispute(0, 2, 1, 500, 90, 3600).unwrap();
    c.cast_vote(10, 7, id, true).unwrap();
    c.cast_vote(10, 8, id, false).unwrap();
    c.resolve_dispute(3601, id).unwrap();
    let dispute = c.get_dispute(id).unwrap();
    assert_eq!(dispute.outcome, DisputeOutcome::FavorSlasher);
}

#[test]
fn test_resolve_dispute_before_deadline_fails() {
    let mut c = setup();
    let id = c.create_dispute(0, 2, 1, 500, 90, 3600).unwrap();
    assert_eq!(c.resolve_dispute(3600, id), Err(Error::DeadlineNotReached));
}

#[test]
fn test_resolve_dispute_twice_fails() {
    let mut c = setup();
    let id = c.create_dispute(0, 2, 1, 500, 90, 3600).unwrap();
    c.resolve_dispute(3601, id).unwrap();
    assert_eq!(c.resolve_dispute(3602, id), Err(Error::DisputeNotOpen));
}

#[test]
fn test_expire_dispute() {
    let mut c = setup();
    let id = c.create_dispute(0, 2, 1, 500, 90, 3600).unwrap();
    c.expire_dispute(3601, id).unwrap();
    let dispute = c.get_dispute(id).unwrap();
    assert_eq!(dispute.status, DisputeStatus::Expired);
}

#[test]
fn test_expire_dispute_before_deadline_fails() {
    let mut c = setup();
    let id = c.create_dispute(0, 2, 1, 500, 90, 3600).unwrap();
    assert_eq!(c.expire_dispute(100, id), Err(Error::DeadlineNotReached));
}

#[test]
fn test_vote_on_resolved_dispute_fails() {
    let mut c = setup();
    let id = c.create_dispute(0, 2, 1, 500, 90, 3600).unwrap();
    c.resolve_dispute(3601, id).unwrap();
    assert_eq!(c.cast_vote(3601, 7, id, true), Err(Error::DisputeNotOpen));
}

#[test]
fn test_get_dispute_not_found() {
    let c = setup();
    assert_eq!(c.get_dispute(42), Err(Error::DisputeNotFound));
}

#[test]
fn test_resolve_dispute_fails_not_found() {
    let mut c = setup();
    assert_eq!(c.resolve_dispute(3601, 42), Err(Error::DisputeNotFound));
}

#[test]
fn test_expire_dispute_fails_not_found() {
    let mut c = setup();
    assert_eq!(c.expire_dispute(3601, 42), Err(Error::DisputeNotFound));
}

#[test]
fn test_expire_already_resolved_dispute_fails() {
    let mut c = setup();
    let id = c.create_dispute(0, 2, 1, 500, 90, 3600).unwrap();
    c.resolve_dispute(3601, id).unwrap();
    assert_eq!(c.expire_dispute(3602, id), Err(Error::DisputeNotOpen));
}

#[test]
fn test_cannot_vote_on_expired_dispute() {
    let mut c = setup();
    let id = c.create_dispute(0, 2, 1, 500, 90, 3600).unwrap();
    c.expire_dispute(3601, id).unwrap();
    assert_eq!(c.cast_vote(3601, 7, id, true), Err(Error::DisputeNotOpen));
}

#[test]
fn test_get_dispute_count_empty() {
    let c = setup();
    assert_eq!(c.get_dispute_count(), 0);
}
