//! Replay prevention: per-identity nonces must match and then increment.

use credence_bond::errors::BondError;
use credence_bond::state::CredenceBond;

fn setup() -> (CredenceBond, u64) {
    let mut s = CredenceBond::new();
    s.initialize(1);
    let attester: u64 = 10;
    s.register_attester(attester).unwrap();
    (s, attester)
}

#[test]
fn nonce_starts_at_zero() {
    let (s, attester) = setup();
    assert_eq!(s.get_nonce(attester), 0);
}

#[test]
fn nonce_increments_after_add_attestation() {
    let (mut s, attester) = setup();
    let subject: u64 = 20;
    assert_eq!(s.get_nonce(attester), 0);
    s.add_attestation(0, attester, subject, 41, 0).unwrap();
    assert_eq!(s.get_nonce(attester), 1);
    s.add_attestation(0, attester, subject, 42, 1).unwrap();
    assert_eq!(s.get_nonce(attester), 2);
}

#[test]
fn replay_add_attestation_rejected() {
    let (mut s, attester) = setup();
    let subject: u64 = 20;
    let data: u64 = 43;
    s.add_attestation(0, attester, subject, data, 0).unwrap();
    assert_eq!(
        s.add_attestation(0, attester, subject, data, 0),
        Err(BondError::Replay)
    );
}

#[test]
fn wrong_nonce_rejected() {
    let (mut s, attester) = setup();
    assert_eq!(
        s.add_attestation(0, attester, 20, 44, 1),
        Err(BondError::Replay)
    );
}

#[test]
fn nonce_increments_after_revoke() {
    let (mut s, attester) = setup();
    let subject: u64 = 20;
    let n = s.get_nonce(attester);
    let att = s.add_attestation(0, attester, subject, 45, n).unwrap();
    let nonce_before = s.get_nonce(attester);
    s.revoke_attestation(attester, att.id, nonce_before).unwrap();
    assert_eq!(s.get_nonce(attester), nonce_before + 1);
}

#[test]
fn replay_revoke_rejected() {
    let (mut s, attester) = setup();
    let subject: u64 = 20;
    let n = s.get_nonce(attester);
    let att = s.add_attestation(0, attester, subject, 46, n).unwrap();
    let used_nonce = s.get_nonce(attester) - 1;
    assert_eq!(
        s.revoke_attestation(attester, att.id, used_nonce),
        Err(BondError::Replay)
    );
}

#[test]
fn consume_nonce_succeeds_at_most_once() {
    // the second consumption of the same value fails with the replay error
    let (mut s, _attester) = setup();
    let identity: u64 = 33;
    assert_eq!(s.consume_nonce(identity, 0), Ok(()));
    assert_eq!(s.consume_nonce(identity, 0), Err(BondError::Replay));
    assert_eq!(s.get_nonce(identity), 1);
    assert_eq!(s.consume_nonce(identity, 1), Ok(()));
    assert_eq!(s.consume_nonce(identity, 1), Err(BondError::Replay));
}

#[test]
fn consume_nonce_fails_closed_at_limit() {
    // a nonce at the largest representable value cannot be consumed
    let (mut s, _attester) = setup();
    let identity: u64 = 34;
    assert_eq!(s.consume_nonce(identity, u64::MAX), Err(BondError::Replay));
}
