//! Delegation registry: typed, expiring, revocable delegations.

use credence_bond::delegation::{
    AttestationStatus, CredenceDelegation, DelegationError, DelegationType,
};

fn setup() -> CredenceDelegation {
    let mut d = CredenceDelegation::new();
    d.initialize(1).unwrap();
    d
}

#[test]
fn test_delegate_attestation() {
    let mut c = setup();
    let owner: u64 = 2;
    let delegate: u64 = 3;
    let d = c.delegate(0, owner, delegate, DelegationType::Attestation, 86400).unwrap();
    assert_eq!(d.owner, owner);
    assert_eq!(d.delegate, delegate);
    assert_eq!(d.expires_at, 86400);
    assert!(!d.revoked);
    assert!(matches!(d.delegation_type, DelegationType::Attestation));
}

#[test]
fn test_delegate_management() {
    let mut c = setup();
    let owner: u64 = 2;
    let delegate: u64 = 3;
    let d = c.delegate(0, owner, delegate, DelegationType::Management, 86400).unwrap();
    assert_eq!(d.owner, owner);
    assert_eq!(d.delegate, delegate);
    assert!(matches!(d.delegation_type, DelegationType::Management));
}

#[test]
fn test_get_delegation() {
    let mut c = setup();
    let owner: u64 = 2;
    let delegate: u64 = 3;
    c.delegate(0, owner, delegate, DelegationType::Attestation, 86400).unwrap();
    let d = c.get_delegation(owner, delegate, DelegationType::Attestation).unwrap();
    assert_eq!(d.owner, owner);
    assert_eq!(d.delegate, delegate);
    assert_eq!(d.expires_at, 86400);
}

#[test]
fn test_revoke_delegation() {
    let mut c = setup();
    let owner: u64 = 2;
    let delegate: u64 = 3;
    c.delegate(0, owner, delegate, DelegationType::Attestation, 86400).unwrap();
    c.revoke_delegation(owner, delegate, DelegationType::Attestation).unwrap();
    let d = c.get_delegation(owner, delegate, DelegationType::Attestation).unwrap();
    assert!(d.revoked);
}

#[test]
fn test_is_valid_delegate() {
    let mut c = setup();
    let owner: u64 = 2;
    let delegate: u64 = 3;
    c.delegate(0, owner, delegate, DelegationType::Attestation, 86400).unwrap();
    assert!(c.is_valid_delegate(0, owner, delegate, DelegationType::Attestation));
}

#[test]
fn test_is_valid_delegate_not_found() {
    let c = setup();
    assert!(!c.is_valid_delegate(0, 2, 3, DelegationType::Attestation));
}

#[test]
fn test_is_valid_delegate_after_revoke() {
    let mut c = setup();
    let owner: u64 = 2;
    let delegate: u64 = 3;
    c.delegate(0, owner, delegate, DelegationType::Management, 86400).unwrap();
    c.revoke_delegation(owner, delegate, DelegationType::Management).unwrap();
    assert!(!c.is_valid_delegate(0, owner, delegate, DelegationType::Management));
}

#[test]
fn test_is_valid_delegate_after_expiry() {
    let mut c = setup();
    let owner: u64 = 2;
    let delegate: u64 = 3;
    c.delegate(0, owner, delegate, DelegationType::Attestation, 100).unwrap();
    assert!(c.is_valid_delegate(0, owner, delegate, DelegationType::Attestation));
    // past expiry
    assert!(!c.is_valid_delegate(200, owner, delegate, DelegationType::Attestation));
}

#[test]
fn test_independent_delegation_types() {
    let mut c = setup();
    let owner: u64 = 2;
    let delegate: u64 = 3;
    c.delegate(0, owner, delegate, DelegationType::Management, 86400).unwrap();
    assert!(!c.is_valid_delegate(0, owner, delegate, DelegationType::Attestation));
    assert!(c.is_valid_delegate(0, owner, delegate, DelegationType::Management));
}

#[test]
fn test_double_initialize() {
    let mut c = setup();
    assert_eq!(c.initialize(9), Err(DelegationError::AlreadyInitialized));
}

#[test]
fn test_delegate_with_past_expiry() {
    let mut c = setup();
    assert_eq!(
        c.delegate(100, 2, 3, DelegationType::Attestation, 100),
        Err(DelegationError::ExpiryNotFuture)
    );
}

#[test]
fn test_get_nonexistent_delegation() {
    let c = setup();
    assert_eq!(
        c.get_delegation(2, 3, DelegationType::Attestation),
        Err(DelegationError::DelegationNotFound)
    );
}

#[test]
fn test_double_revoke() {
    let mut c = setup();
    c.delegate(0, 2, 3, DelegationType::Attestation, 86400).unwrap();
    c.revoke_delegation(2, 3, DelegationType::Attestation).unwrap();
    assert_eq!(
        c.revoke_delegation(2, 3, DelegationType::Attestation),
        Err(DelegationError::AlreadyRevoked)
    );
}

#[test]
fn test_revoke_attestation_happy_path() {
    let mut c = setup();
    let attester: u64 = 2;
    let subject: u64 = 3;
    c.delegate(0, attester, subject, DelegationType::Attestation, 86400).unwrap();
    assert!(matches!(
        c.get_attestation_status(attester, subject),
        AttestationStatus::Active
    ));
    c.revoke_attestation(attester, subject).unwrap();
    assert!(matches!(
        c.get_attestation_status(attester, subject),
        AttestationStatus::Revoked
    ));
}

#[test]
fn test_revoke_attestation_history_preserved() {
    let mut c = setup();
    let attester: u64 = 2;
    let subject: u64 = 3;
    c.delegate(0, attester, subject, DelegationType::Attestation, 86400).unwrap();
    c.revoke_attestation(attester, subject).unwrap();
    let d = c.get_delegation(attester, subject, DelegationType::Attestation).unwrap();
    assert_eq!(d.owner, attester);
    assert_eq!(d.delegate, subject);
    assert!(d.revoked);
    assert_eq!(d.expires_at, 86400);
}

#[test]
fn test_revoke_attestation_is_valid_false() {
    let mut c = setup();
    let attester: u64 = 2;
    let subject: u64 = 3;
    c.delegate(0, attester, subject, DelegationType::Attestation, 86400).unwrap();
    assert!(c.is_valid_delegate(0, attester, subject, DelegationType::Attestation));
    c.revoke_attestation(attester, subject).unwrap();
    assert!(!c.is_valid_delegate(0, attester, subject, DelegationType::Attestation));
}

#[test]
fn test_revoke_attestation_not_found() {
    let mut c = setup();
    assert_eq!(
        c.revoke_attestation(2, 3),
        Err(DelegationError::DelegationNotFound)
    );
}

#[test]
fn test_revoke_attestation_double_revoke() {
    let mut c = setup();
    c.delegate(0, 2, 3, DelegationType::Attestation, 86400).unwrap();
    c.revoke_attestation(2, 3).unwrap();
    assert_eq!(c.revoke_attestation(2, 3), Err(DelegationError::AlreadyRevoked));
}

#[test]
fn test_get_attestation_status_active() {
    let mut c = setup();
    c.delegate(0, 2, 3, DelegationType::Attestation, 86400).unwrap();
    assert!(matches!(c.get_attestation_status(2, 3), AttestationStatus::Active));
}

#[test]
fn test_get_attestation_status_not_found() {
    let c = setup();
    assert!(matches!(c.get_attestation_status(2, 3), AttestationStatus::NotFound));
}

#[test]
fn test_revoke_attestation_does_not_affect_management() {
    let mut c = setup();
    let attester: u64 = 2;
    let subject: u64 = 3;
    c.delegate(0, attester, subject, DelegationType::Attestation, 86400).unwrap();
    c.delegate(0, attester, subject, DelegationType::Management, 86400).unwrap();
    c.revoke_attestation(attester, subject).unwrap();
    assert!(matches!(
        c.get_attestation_status(attester, subject),
        AttestationStatus::Revoked
    ));
    assert!(c.is_valid_delegate(0, attester, subject, DelegationType::Management));
}
