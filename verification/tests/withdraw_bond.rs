//! Bond withdrawal flows: success, partials, insufficient balance, the
//! early-withdraw path after lock-up, and the notice-period helper.

use credence_bond::errors::BondError;
use credence_bond::rolling_bond;
use credence_bond::state::CredenceBond;

fn setup() -> (CredenceBond, u64) {
    let mut s = CredenceBond::new();
    let admin: u64 = 1;
    s.initialize(admin);
    (s, admin)
}

#[test]
fn test_withdraw_bond_successful() {
    let (mut s, _admin) = setup();
    let identity: u64 = 2;
    s.create_bond(0, identity, 1000, 100, false, 0).unwrap();
    let bond = s.withdraw(100, 1000).unwrap();
    assert_eq!(bond.bonded_amount, 0);
    assert_eq!(bond.slashed_amount, 0);
}

#[test]
fn test_withdraw_bond_partial_withdrawal() {
    let (mut s, _admin) = setup();
    let identity: u64 = 2;
    s.create_bond(0, identity, 1000, 100, false, 0).unwrap();
    let bond = s.withdraw(100, 400).unwrap();
    assert_eq!(bond.bonded_amount, 600);
    assert_eq!(bond.slashed_amount, 0);
}

#[test]
fn test_withdraw_bond_insufficient_balance() {
    let (mut s, _admin) = setup();
    let identity: u64 = 2;
    s.create_bond(0, identity, 500, 100, false, 0).unwrap();
    assert_eq!(s.withdraw(100, 501), Err(BondError::InsufficientBalance));
}

#[test]
fn test_withdraw_bond_early_withdrawal_rejection() {
    let (mut s, admin) = setup();
    let treasury: u64 = 3;
    let identity: u64 = 2;
    s.set_early_exit_config(admin, treasury, 500).unwrap();
    s.create_bond(1_000, identity, 1000, 100, false, 0).unwrap();
    // past lock-up: the early path is refused
    assert_eq!(s.withdraw_early(1_101, 100), Err(BondError::LockupElapsed));
}

#[test]
fn test_withdraw_bond_cooldown_enforcement_helper() {
    let requested_at = 1_000_u64;
    let notice = 50_u64;

    // During cooldown.
    assert!(!rolling_bond::can_withdraw_after_notice(1_049, requested_at, notice));
    // Exactly at cooldown end.
    assert!(rolling_bond::can_withdraw_after_notice(1_050, requested_at, notice));
    // Well after cooldown.
    assert!(rolling_bond::can_withdraw_after_notice(1_500, requested_at, notice));
}

#[test]
fn test_withdraw_bond_cooldown_requires_request() {
    // If no withdrawal request was made, cooldown must not pass.
    assert!(!rolling_bond::can_withdraw_after_notice(2_000, 0, 30));
}

#[test]
fn test_withdraw_bond_exact_available_after_slash() {
    let (mut s, admin) = setup();
    let identity: u64 = 2;
    s.create_bond(0, identity, 1_000, 100, false, 0).unwrap();
    s.slash(admin, 250).unwrap();
    let bond = s.withdraw(100, 750).unwrap();
    assert_eq!(bond.bonded_amount, 250);
    assert_eq!(bond.slashed_amount, 250);
}

#[test]
fn test_withdraw_before_lockup_rejected() {
    let (mut s, _admin) = setup();
    let identity: u64 = 2;
    s.create_bond(0, identity, 1000, 100, false, 0).unwrap();
    assert_eq!(s.withdraw(99, 10), Err(BondError::LockupNotElapsed));
}

#[test]
fn test_withdraw_without_bond_rejected() {
    let (mut s, _admin) = setup();
    assert_eq!(s.withdraw(0, 1), Err(BondError::NoBond));
}
