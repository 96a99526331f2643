//! Weighted attestations: weight from the attester's configured stake.

use credence_bond::errors::BondError;
use credence_bond::state::CredenceBond;

fn setup() -> (CredenceBond, u64, u64) {
    let mut s = CredenceBond::new();
    let admin: u64 = 1;
    s.initialize(admin);
    let attester: u64 = 10;
    s.register_attester(attester).unwrap();
    (s, admin, attester)
}

#[test]
fn default_weight_is_one() {
    let (mut s, _admin, attester) = setup();
    let subject: u64 = 20;
    let n = s.get_nonce(attester);
    let att = s.add_attestation(0, attester, subject, 700, n).unwrap();
    assert_eq!(att.weight, 1);
}

#[test]
fn weight_increases_with_stake() {
    let (mut s, admin, attester) = setup();
    s.set_attester_stake(admin, attester, 1_000_000).unwrap();
    s.set_weight_config(admin, 100, 100_000).unwrap();
    let subject: u64 = 20;
    let n = s.get_nonce(attester);
    let att = s.add_attestation(0, attester, subject, 700, n).unwrap();
    assert!(att.weight >= 1);
}

#[test]
fn weight_capped_by_config() {
    let (mut s, admin, attester) = setup();
    s.set_attester_stake(admin, attester, 1_000_000_000_000).unwrap();
    s.set_weight_config(admin, 100_000, 500).unwrap();
    let subject: u64 = 20;
    let n = s.get_nonce(attester);
    let att = s.add_attestation(0, attester, subject, 701, n).unwrap();
    assert!(att.weight <= 500);
}

#[test]
fn get_weight_config_returns_set_values() {
    let (mut s, admin, _attester) = setup();
    s.set_weight_config(admin, 200, 10_000).unwrap();
    let (mult, max) = s.get_weight_config();
    assert_eq!(mult, 200);
    assert_eq!(max, 10_000);
}

#[test]
fn weight_formula_exact() {
    // weight = floor(stake * multiplier_bps / 10000), clamped to [1, max]
    let (mut s, admin, attester) = setup();
    s.set_attester_stake(admin, attester, 1_000_000).unwrap();
    s.set_weight_config(admin, 100, 100_000).unwrap();
    // 1_000_000 * 100 / 10_000 = 10_000
    assert_eq!(s.compute_weight(attester), 10_000);
}

#[test]
fn negative_stake_rejected() {
    let (mut s, admin, attester) = setup();
    assert_eq!(
        s.set_attester_stake(admin, attester, -1),
        Err(BondError::NegativeAmount)
    );
}

#[test]
fn set_stake_requires_admin() {
    let (mut s, _admin, attester) = setup();
    let other: u64 = 5;
    assert_eq!(
        s.set_attester_stake(other, attester, 100),
        Err(BondError::NotAdmin)
    );
}
