//! Arithmetic safety at the boundaries: large amounts, timestamp overflow,
//! and withdrawal underflow.

use credence_bond::errors::BondError;
use credence_bond::state::CredenceBond;

fn setup() -> (CredenceBond, u64, u64) {
    let mut s = CredenceBond::new();
    let admin: u64 = 1;
    s.initialize(admin);
    (s, admin, 2)
}

#[test]
fn test_i128_bond_amount_at_max() {
    let (mut s, _admin, identity) = setup();
    let bond = s.create_bond(0, identity, i128::MAX, 86400, false, 0).unwrap();
    assert_eq!(bond.bonded_amount, i128::MAX);
    assert!(bond.active);
}

#[test]
fn test_i128_overflow_on_top_up() {
    let (mut s, _admin, identity) = setup();
    s.create_bond(0, identity, i128::MAX - 1000, 86400, false, 0).unwrap();
    assert_eq!(s.top_up(2000), Err(BondError::Overflow));
}

#[test]
fn test_i128_overflow_on_max_top_up() {
    let (mut s, _admin, identity) = setup();
    s.create_bond(0, identity, i128::MAX, 86400, false, 0).unwrap();
    assert_eq!(s.top_up(1), Err(BondError::Overflow));
}

#[test]
fn test_i128_overflow_on_massive_slashing() {
    let (mut s, admin, identity) = setup();
    s.create_bond(0, identity, i128::MAX / 2, 86400, false, 0).unwrap();
    s.slash(admin, i128::MAX / 2).unwrap();
    // slashed is now i128::MAX / 2; adding more than that overflows
    assert_eq!(s.slash(admin, i128::MAX / 2 + 2), Err(BondError::Overflow));
}

#[test]
fn test_i128_large_bond_operations() {
    let (mut s, _admin, identity) = setup();
    let large_amount = i128::MAX / 2;
    let bond = s.create_bond(0, identity, large_amount, 86400, false, 0).unwrap();
    assert_eq!(bond.bonded_amount, large_amount);
    let bond = s.top_up(large_amount / 2).unwrap();
    assert_eq!(bond.bonded_amount, large_amount + (large_amount / 2));
}

#[test]
fn test_u64_max_duration() {
    let (mut s, _admin, identity) = setup();
    let bond = s.create_bond(0, identity, 1000, u64::MAX, false, 0).unwrap();
    assert_eq!(bond.bond_duration, u64::MAX);
}

#[test]
fn test_u64_overflow_on_duration_extension() {
    let (mut s, _admin, identity) = setup();
    s.create_bond(0, identity, 1000, u64::MAX - 1000, false, 0).unwrap();
    assert_eq!(s.extend_duration(2000), Err(BondError::Overflow));
}

#[test]
fn test_u64_overflow_on_end_timestamp() {
    let (mut s, _admin, identity) = setup();
    assert_eq!(
        s.create_bond(u64::MAX - 1000, identity, 1000, 2000, false, 0),
        Err(BondError::Overflow)
    );
}

#[test]
fn test_u64_large_duration_extension() {
    let (mut s, _admin, identity) = setup();
    let duration = u64::MAX / 2;
    let bond = s.create_bond(0, identity, 1000, duration, false, 0).unwrap();
    assert_eq!(bond.bond_duration, duration);
    let bond = s.extend_duration(duration / 2).unwrap();
    assert_eq!(bond.bond_duration, duration + (duration / 2));
}

#[test]
fn test_timestamp_boundary_conditions() {
    let (mut s, _admin, identity) = setup();
    let now = u64::MAX - 10000;
    let bond = s.create_bond(now, identity, 1000, 5000, false, 0).unwrap();
    assert_eq!(bond.bond_duration, 5000);
    assert!(bond.bond_start >= u64::MAX - 10000);
}

#[test]
fn test_withdrawal_exceeds_available_balance() {
    let (mut s, _admin, identity) = setup();
    s.create_bond(0, identity, 1000, 86400, false, 0).unwrap();
    assert_eq!(s.withdraw(86400, 1001), Err(BondError::InsufficientBalance));
}

#[test]
fn test_withdrawal_after_slashing() {
    let (mut s, admin, identity) = setup();
    s.create_bond(0, identity, 1000, 86400, false, 0).unwrap();
    s.slash(admin, 400).unwrap();
    assert_eq!(s.withdraw(86400, 601), Err(BondError::InsufficientBalance));
}

#[test]
fn test_withdrawal_exact_available_balance() {
    let (mut s, _admin, identity) = setup();
    s.create_bond(0, identity, 1000, 86400, false, 0).unwrap();
    let bond = s.withdraw(86400, 1000).unwrap();
    assert_eq!(bond.bonded_amount, 0);
}

#[test]
fn test_withdrawal_zero_amount() {
    let (mut s, _admin, identity) = setup();
    s.create_bond(0, identity, 1000, 86400, false, 0).unwrap();
    let bond = s.withdraw(86400, 0).unwrap();
    assert_eq!(bond.bonded_amount, 1000);
}

#[test]
fn test_multiple_withdrawals_causing_underflow() {
    let (mut s, _admin, identity) = setup();
    s.create_bond(0, identity, 1000, 86400, false, 0).unwrap();
    s.withdraw(86400, 400).unwrap();
    s.withdraw(86400, 400).unwrap();
    assert_eq!(s.withdraw(86400, 300), Err(BondError::InsufficientBalance));
}

#[test]
fn test_withdrawal_with_max_i128_bond() {
    let (mut s, _admin, identity) = setup();
    s.create_bond(0, identity, i128::MAX, 86400, false, 0).unwrap();
    let bond = s.withdraw(86400, i128::MAX / 2).unwrap();
    assert_eq!(bond.bonded_amount, i128::MAX - (i128::MAX / 2));
}

#[test]
fn test_slashing_normal_amount() {
    let (mut s, admin, identity) = setup();
    s.create_bond(0, identity, 1000, 86400, false, 0).unwrap();
    let bond = s.slash(admin, 300).unwrap();
    assert_eq!(bond.slashed_amount, 300);
    assert_eq!(bond.bonded_amount, 1000);
}

#[test]
fn test_slashing_exceeds_bonded_amount() {
    let (mut s, admin, identity) = setup();
    s.create_bond(0, identity, 1000, 86400, false, 0).unwrap();
    let bond = s.slash(admin, 2000).unwrap();
    assert_eq!(bond.slashed_amount, 1000); // capped at bonded_amount
    assert_eq!(bond.bonded_amount, 1000);
}

#[test]
fn test_multiple_slashing_operations() {
    let (mut s, admin, identity) = setup();
    s.create_bond(0, identity, 1000, 86400, false, 0).unwrap();
    let bond = s.slash(admin, 200).unwrap();
    assert_eq!(bond.slashed_amount, 200);
    let bond = s.slash(admin, 300).unwrap();
    assert_eq!(bond.slashed_amount, 500);
    let bond = s.slash(admin, 100).unwrap();
    assert_eq!(bond.slashed_amount, 600);
}

#[test]
fn test_slashing_zero_amount() {
    let (mut s, admin, identity) = setup();
    s.create_bond(0, identity, 1000, 86400, false, 0).unwrap();
    let bond = s.slash(admin, 0).unwrap();
    assert_eq!(bond.slashed_amount, 0);
}

#[test]
fn test_slashing_after_withdrawal() {
    let (mut s, admin, identity) = setup();
    s.create_bond(0, identity, 1000, 86400, false, 0).unwrap();
    s.withdraw(86400, 300).unwrap();
    let bond = s.slash(admin, 400).unwrap();
    assert_eq!(bond.slashed_amount, 400);
    assert_eq!(bond.bonded_amount, 700);
}

#[test]
fn test_slashing_with_max_values() {
    let (mut s, admin, identity) = setup();
    s.create_bond(0, identity, i128::MAX, 86400, false, 0).unwrap();
    let bond = s.slash(admin, i128::MAX / 2).unwrap();
    assert_eq!(bond.slashed_amount, i128::MAX / 2);
}

#[test]
fn test_complex_arithmetic_scenario() {
    let (mut s, admin, identity) = setup();
    s.create_bond(0, identity, 10000, 86400, false, 0).unwrap();
    let bond = s.top_up(5000).unwrap();
    assert_eq!(bond.bonded_amount, 15000);
    let bond = s.slash(admin, 3000).unwrap();
    assert_eq!(bond.slashed_amount, 3000);
    let bond = s.withdraw(86400, 8000).unwrap();
    assert_eq!(bond.bonded_amount, 7000);
    assert_eq!(bond.slashed_amount, 3000);
}

#[test]
fn test_deposit_fees_overflow() {
    let (mut s, _admin, _identity) = setup();
    s.deposit_fees(i128::MAX).unwrap();
    assert_eq!(s.deposit_fees(1), Err(BondError::Overflow));
}

#[test]
fn test_withdrawal_leaves_insufficient_for_slashed() {
    let (mut s, admin, identity) = setup();
    s.create_bond(0, identity, 1000, 86400, false, 0).unwrap();
    s.slash(admin, 500).unwrap();
    // only 500 is available after slashing
    assert_eq!(s.withdraw(86400, 600), Err(BondError::InsufficientBalance));
}

#[test]
fn test_boundary_arithmetic_with_zero_values() {
    let (mut s, admin, identity) = setup();
    let bond = s.create_bond(0, identity, 0, 86400, false, 0).unwrap();
    assert_eq!(bond.bonded_amount, 0);
    let bond = s.slash(admin, 0).unwrap();
    assert_eq!(bond.slashed_amount, 0);
    let bond = s.withdraw(86400, 0).unwrap();
    assert_eq!(bond.bonded_amount, 0);
}

#[test]
fn test_slashed_never_exceeds_bonded() {
    // the bond invariant holds after a mixed sequence of operations
    let (mut s, admin, identity) = setup();
    s.create_bond(0, identity, 1000, 100, false, 0).unwrap();
    s.slash(admin, 700).unwrap();
    s.top_up(50).unwrap();
    s.slash(admin, 600).unwrap();
    let b = s.get_identity_state().unwrap();
    assert!(0 <= b.slashed_amount && b.slashed_amount <= b.bonded_amount);
    s.withdraw(100, b.bonded_amount - b.slashed_amount).unwrap();
    let b2 = s.get_identity_state().unwrap();
    assert!(b2.slashed_amount <= b2.bonded_amount);
}
