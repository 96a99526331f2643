//! Treasury: initialization, deposits by source, depositors, and multi-sig
//! withdrawal proposals.

use credence_bond::treasury::{CredenceTreasury, FundSource, TreasuryError};

fn setup() -> (CredenceTreasury, u64) {
    let mut t = CredenceTreasury::new();
    let admin: u64 = 1;
    t.initialize(admin);
    (t, admin)
}

#[test]
fn test_initialize() {
    let (t, admin) = setup();
    assert_eq!(t.get_admin(), Ok(admin));
    assert_eq!(t.get_balance(), 0);
    assert_eq!(t.get_balance_by_source(FundSource::ProtocolFee), 0);
    assert_eq!(t.get_balance_by_source(FundSource::SlashedFunds), 0);
    assert_eq!(t.get_threshold(), 0);
}

#[test]
fn test_receive_fee_as_admin() {
    let (mut t, admin) = setup();
    t.receive_fee(admin, 1000, FundSource::ProtocolFee).unwrap();
    assert_eq!(t.get_balance(), 1000);
    assert_eq!(t.get_balance_by_source(FundSource::ProtocolFee), 1000);
    assert_eq!(t.get_balance_by_source(FundSource::SlashedFunds), 0);
    t.receive_fee(admin, 500, FundSource::SlashedFunds).unwrap();
    assert_eq!(t.get_balance(), 1500);
    assert_eq!(t.get_balance_by_source(FundSource::SlashedFunds), 500);
}

#[test]
fn test_receive_fee_as_depositor() {
    let (mut t, _admin) = setup();
    let depositor: u64 = 5;
    t.add_depositor(depositor).unwrap();
    t.receive_fee(depositor, 2000, FundSource::ProtocolFee).unwrap();
    assert_eq!(t.get_balance(), 2000);
    assert!(t.is_depositor(depositor));
    t.remove_depositor(depositor).unwrap();
    assert!(!t.is_depositor(depositor));
}

#[test]
fn test_receive_fee_unauthorized() {
    let (mut t, _admin) = setup();
    let other: u64 = 5;
    assert_eq!(
        t.receive_fee(other, 100, FundSource::ProtocolFee),
        Err(TreasuryError::NotDepositor)
    );
}

#[test]
fn test_receive_fee_zero_amount() {
    let (mut t, admin) = setup();
    assert_eq!(
        t.receive_fee(admin, 0, FundSource::ProtocolFee),
        Err(TreasuryError::NonPositiveAmount)
    );
}

#[test]
fn test_receive_fee_negative_amount() {
    let (mut t, admin) = setup();
    assert_eq!(
        t.receive_fee(admin, -100, FundSource::ProtocolFee),
        Err(TreasuryError::NonPositiveAmount)
    );
}

#[test]
fn test_add_remove_signer_and_threshold() {
    let (mut t, _admin) = setup();
    let s1: u64 = 11;
    let s2: u64 = 12;
    t.add_signer(s1).unwrap();
    t.add_signer(s2).unwrap();
    assert!(t.is_signer(s1));
    assert!(t.is_signer(s2));
    t.set_threshold(2).unwrap();
    assert_eq!(t.get_threshold(), 2);
    t.remove_signer(s1).unwrap();
    assert!(!t.is_signer(s1));
    assert_eq!(t.get_threshold(), 1);
}

#[test]
fn test_set_threshold_exceeds_signers() {
    let (mut t, _admin) = setup();
    t.add_signer(11).unwrap();
    assert_eq!(t.set_threshold(3), Err(TreasuryError::ThresholdTooHigh));
}

#[test]
fn test_propose_approve_execute_withdrawal() {
    let (mut t, admin) = setup();
    t.receive_fee(admin, 10_000, FundSource::ProtocolFee).unwrap();
    let s1: u64 = 11;
    let s2: u64 = 12;
    let recipient: u64 = 30;
    t.add_signer(s1).unwrap();
    t.add_signer(s2).unwrap();
    t.set_threshold(2).unwrap();
    let id = t.propose_withdrawal(0, s1, recipient, 3000).unwrap();
    let prop = t.get_proposal(id).unwrap();
    assert_eq!(prop.recipient, recipient);
    assert_eq!(prop.amount, 3000);
    assert!(!prop.executed);
    assert_eq!(t.get_approval_count(id), 0);
    t.approve_withdrawal(s1, id).unwrap();
    assert!(t.has_approved(id, s1));
    assert_eq!(t.get_approval_count(id), 1);
    t.approve_withdrawal(s2, id).unwrap();
    assert_eq!(t.get_approval_count(id), 2);
    t.execute_withdrawal(id).unwrap();
    assert_eq!(t.get_balance(), 7000);
    let prop2 = t.get_proposal(id).unwrap();
    assert!(prop2.executed);
}

#[test]
fn test_propose_withdrawal_non_signer() {
    let (mut t, admin) = setup();
    t.receive_fee(admin, 1000, FundSource::ProtocolFee).unwrap();
    let other: u64 = 5;
    assert_eq!(
        t.propose_withdrawal(0, other, 30, 500),
        Err(TreasuryError::NotSigner)
    );
}

#[test]
fn test_propose_withdrawal_zero_amount() {
    let (mut t, admin) = setup();
    t.receive_fee(admin, 1000, FundSource::ProtocolFee).unwrap();
    t.add_signer(11).unwrap();
    t.set_threshold(1).unwrap();
    assert_eq!(
        t.propose_withdrawal(0, 11, 30, 0),
        Err(TreasuryError::NonPositiveAmount)
    );
}

#[test]
fn test_propose_withdrawal_exceeds_balance() {
    let (mut t, admin) = setup();
    t.receive_fee(admin, 100, FundSource::ProtocolFee).unwrap();
    t.add_signer(11).unwrap();
    t.set_threshold(1).unwrap();
    assert_eq!(
        t.propose_withdrawal(0, 11, 30, 200),
        Err(TreasuryError::InsufficientBalance)
    );
}

#[test]
fn test_approve_withdrawal_non_signer() {
    let (mut t, admin) = setup();
    t.receive_fee(admin, 1000, FundSource::ProtocolFee).unwrap();
    t.add_signer(11).unwrap();
    t.set_threshold(1).unwrap();
    let id = t.propose_withdrawal(0, 11, 30, 100).unwrap();
    let other: u64 = 5;
    assert_eq!(t.approve_withdrawal(other, id), Err(TreasuryError::NotSigner));
}

#[test]
fn test_double_approve_is_noop() {
    let (mut t, admin) = setup();
    t.receive_fee(admin, 1000, FundSource::ProtocolFee).unwrap();
    t.add_signer(11).unwrap();
    t.set_threshold(1).unwrap();
    let id = t.propose_withdrawal(0, 11, 30, 100).unwrap();
    t.approve_withdrawal(11, id).unwrap();
    t.approve_withdrawal(11, id).unwrap();
    assert_eq!(t.get_approval_count(id), 1);
    t.execute_withdrawal(id).unwrap();
}

#[test]
fn test_execute_without_threshold() {
    let (mut t, admin) = setup();
    t.receive_fee(admin, 1000, FundSource::ProtocolFee).unwrap();
    t.add_signer(11).unwrap();
    t.add_signer(12).unwrap();
    t.set_threshold(2).unwrap();
    let id = t.propose_withdrawal(0, 11, 30, 100).unwrap();
    t.approve_withdrawal(11, id).unwrap();
    assert_eq!(
        t.execute_withdrawal(id),
        Err(TreasuryError::InsufficientApprovals)
    );
}

#[test]
fn test_execute_twice_fails() {
    let (mut t, admin) = setup();
    t.receive_fee(admin, 1000, FundSource::ProtocolFee).unwrap();
    t.add_signer(11).unwrap();
    t.set_threshold(1).unwrap();
    let id = t.propose_withdrawal(0, 11, 30, 100).unwrap();
    t.approve_withdrawal(11, id).unwrap();
    t.execute_withdrawal(id).unwrap();
    assert_eq!(t.execute_withdrawal(id), Err(TreasuryError::AlreadyExecuted));
}

#[test]
fn test_get_proposal_invalid_id() {
    let (t, _admin) = setup();
    assert_eq!(t.get_proposal(999), Err(TreasuryError::ProposalNotFound));
}

#[test]
fn test_approve_after_execute_fails() {
    let (mut t, admin) = setup();
    t.receive_fee(admin, 1000, FundSource::ProtocolFee).unwrap();
    t.add_signer(11).unwrap();
    t.add_signer(12).unwrap();
    t.set_threshold(1).unwrap();
    let id = t.propose_withdrawal(0, 11, 30, 100).unwrap();
    t.approve_withdrawal(11, id).unwrap();
    t.execute_withdrawal(id).unwrap();
    assert_eq!(t.approve_withdrawal(12, id), Err(TreasuryError::AlreadyExecuted));
}

#[test]
fn test_fund_source_tracking() {
    let (mut t, admin) = setup();
    t.receive_fee(admin, 100, FundSource::ProtocolFee).unwrap();
    t.receive_fee(admin, 200, FundSource::SlashedFunds).unwrap();
    t.receive_fee(admin, 50, FundSource::ProtocolFee).unwrap();
    assert_eq!(t.get_balance(), 350);
    assert_eq!(t.get_balance_by_source(FundSource::ProtocolFee), 150);
    assert_eq!(t.get_balance_by_source(FundSource::SlashedFunds), 200);
}

#[test]
fn test_multiple_proposals() {
    let (mut t, admin) = setup();
    t.receive_fee(admin, 5000, FundSource::ProtocolFee).unwrap();
    let s1: u64 = 11;
    let s2: u64 = 12;
    t.add_signer(s1).unwrap();
    t.add_signer(s2).unwrap();
    t.set_threshold(2).unwrap();
    let id1 = t.propose_withdrawal(0, s1, 31, 1000).unwrap();
    let id2 = t.propose_withdrawal(0, s2, 32, 2000).unwrap();
    assert_ne!(id1, id2);
    t.approve_withdrawal(s1, id1).unwrap();
    t.approve_withdrawal(s2, id1).unwrap();
    t.execute_withdrawal(id1).unwrap();
    assert_eq!(t.get_balance(), 4000);
    t.approve_withdrawal(s1, id2).unwrap();
    t.approve_withdrawal(s2, id2).unwrap();
    t.execute_withdrawal(id2).unwrap();
    assert_eq!(t.get_balance(), 2000);
}

#[test]
fn test_remove_signer_caps_threshold() {
    let (mut t, _admin) = setup();
    t.add_signer(11).unwrap();
    t.add_signer(12).unwrap();
    t.set_threshold(2).unwrap();
    t.remove_signer(12).unwrap();
    assert_eq!(t.get_threshold(), 1);
}

#[test]
fn test_add_signer_idempotent() {
    let (mut t, _admin) = setup();
    t.add_signer(11).unwrap();
    t.add_signer(11).unwrap();
    assert!(t.is_signer(11));
}

#[test]
fn test_get_admin_uninitialized() {
    let t = CredenceTreasury::new();
    assert_eq!(t.get_admin(), Err(TreasuryError::NotInitialized));
}

#[test]
fn test_get_approval_count_nonexistent_proposal() {
    let (t, _admin) = setup();
    assert_eq!(t.get_approval_count(99), 0);
}

#[test]
fn test_receive_fee_overflow() {
    let (mut t, admin) = setup();
    t.receive_fee(admin, i128::MAX, FundSource::ProtocolFee).unwrap();
    assert_eq!(
        t.receive_fee(admin, 1, FundSource::SlashedFunds),
        Err(TreasuryError::Overflow)
    );
}
