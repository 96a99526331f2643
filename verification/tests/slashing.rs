//! The capping slash path: authorization, capping, accumulation, and its
//! interaction with withdrawals.

use credence_bond::errors::BondError;
use credence_bond::state::CredenceBond;

fn setup() -> (CredenceBond, u64, u64) {
    let mut s = CredenceBond::new();
    let admin: u64 = 1;
    s.initialize(admin);
    (s, admin, 2)
}

fn setup_with_bond(amount: i128, duration: u64) -> (CredenceBond, u64, u64) {
    let (mut s, admin, identity) = setup();
    s.create_bond(0, identity, amount, duration, false, 0).unwrap();
    (s, admin, identity)
}

#[test]
fn test_slash_basic_success() {
    let (mut s, admin, _identity) = setup_with_bond(1000, 86400);
    let bond = s.slash(admin, 300).unwrap();
    assert_eq!(bond.slashed_amount, 300);
    assert_eq!(bond.bonded_amount, 1000);
    assert!(bond.active);
}

#[test]
fn test_slash_small_amount() {
    let (mut s, admin, _identity) = setup_with_bond(10000, 86400);
    let bond = s.slash(admin, 1).unwrap();
    assert_eq!(bond.slashed_amount, 1);
    assert_eq!(bond.bonded_amount, 10000);
}

#[test]
fn test_slash_exact_half() {
    let (mut s, admin, _identity) = setup_with_bond(1000, 86400);
    let bond = s.slash(admin, 500).unwrap();
    assert_eq!(bond.slashed_amount, 500);
    assert_eq!(bond.bonded_amount, 1000);
}

#[test]
fn test_slash_entire_amount() {
    let (mut s, admin, _identity) = setup_with_bond(1000, 86400);
    let bond = s.slash(admin, 1000).unwrap();
    assert_eq!(bond.slashed_amount, 1000);
    assert_eq!(bond.bonded_amount, 1000);
}

#[test]
fn test_slash_unauthorized_rejection() {
    let (mut s, _admin, _identity) = setup_with_bond(1000, 86400);
    let other: u64 = 77;
    assert_eq!(s.slash(other, 100), Err(BondError::NotAdmin));
}

#[test]
fn test_slash_unauthorized_different_address() {
    let (mut s, _admin, _identity) = setup_with_bond(1000, 86400);
    let attacker1: u64 = 71;
    let attacker2: u64 = 72;
    assert_eq!(s.slash(attacker1, 500), Err(BondError::NotAdmin));
    assert_eq!(s.slash(attacker2, 500), Err(BondError::NotAdmin));
}

#[test]
fn test_slash_identity_cannot_slash_own_bond() {
    let (mut s, _admin, identity) = setup_with_bond(1000, 86400);
    assert_eq!(s.slash(identity, 100), Err(BondError::NotAdmin));
}

#[test]
fn test_slash_over_amount_capped() {
    let (mut s, admin, _identity) = setup_with_bond(1000, 86400);
    let bond = s.slash(admin, 2000).unwrap();
    // capped at bonded_amount
    assert_eq!(bond.slashed_amount, 1000);
    assert_eq!(bond.bonded_amount, 1000);
}

#[test]
fn test_slash_way_over_amount_capped() {
    let (mut s, admin, _identity) = setup_with_bond(500, 86400);
    let bond = s.slash(admin, 999999).unwrap();
    assert_eq!(bond.slashed_amount, 500);
    assert_eq!(bond.bonded_amount, 500);
}

#[test]
fn test_slash_max_i128_capped() {
    let (mut s, admin, _identity) = setup_with_bond(1000, 86400);
    let bond = s.slash(admin, i128::MAX).unwrap();
    assert_eq!(bond.slashed_amount, 1000);
    assert_eq!(bond.bonded_amount, 1000);
}

#[test]
fn test_slash_zero_amount() {
    let (mut s, admin, _identity) = setup_with_bond(1000, 86400);
    let bond = s.slash(admin, 0).unwrap();
    assert_eq!(bond.slashed_amount, 0);
    assert_eq!(bond.bonded_amount, 1000);
}

#[test]
fn test_slash_overflow_prevention() {
    let (mut s, admin, _identity) = setup_with_bond(i128::MAX - 100, 86400);
    s.slash(admin, 50).unwrap();
    // a second slash whose checked addition overflows is refused
    assert_eq!(s.slash(admin, i128::MAX), Err(BondError::Overflow));
}

#[test]
fn test_slash_on_very_large_bond() {
    let (mut s, admin, _identity) = setup_with_bond(i128::MAX / 2, 86400);
    let bond = s.slash(admin, i128::MAX / 4).unwrap();
    assert_eq!(bond.slashed_amount, i128::MAX / 4);
}

#[test]
fn test_slash_history_single_slash() {
    let (mut s, admin, _identity) = setup_with_bond(1000, 86400);
    s.slash(admin, 200).unwrap();
    let bond = s.get_identity_state().unwrap();
    assert_eq!(bond.slashed_amount, 200);
    assert_eq!(bond.bonded_amount, 1000);
}

#[test]
fn test_slash_history_cumulative() {
    let (mut s, admin, _identity) = setup_with_bond(1000, 86400);
    let bond1 = s.slash(admin, 200).unwrap();
    assert_eq!(bond1.slashed_amount, 200);
    let bond2 = s.slash(admin, 300).unwrap();
    assert_eq!(bond2.slashed_amount, 500);
    let bond3 = s.get_identity_state().unwrap();
    assert_eq!(bond3.slashed_amount, 500);
}

#[test]
fn test_slash_multiple_accumulate() {
    let (mut s, admin, _identity) = setup_with_bond(10000, 86400);
    for i in 1..=5_i128 {
        let bond = s.slash(admin, i * 1000).unwrap();
        let expected_slashed = (i * (i + 1) / 2) * 1000;
        let capped = if expected_slashed > 10000 { 10000 } else { expected_slashed };
        assert_eq!(bond.slashed_amount, capped);
    }
}

#[test]
fn test_slash_does_not_affect_other_fields() {
    let (mut s, admin, identity) = setup_with_bond(1000, 86400);
    let original = s.get_identity_state().unwrap();
    s.slash(admin, 300).unwrap();
    let updated = s.get_identity_state().unwrap();
    assert_eq!(updated.bonded_amount, original.bonded_amount);
    assert_eq!(updated.bond_start, original.bond_start);
    assert_eq!(updated.bond_duration, original.bond_duration);
    assert_eq!(updated.identity, identity);
}

#[test]
fn test_slash_event_emitted_basic() {
    let (mut s, admin, _identity) = setup_with_bond(1000, 86400);
    s.slash(admin, 250).unwrap();
    let state = s.get_identity_state().unwrap();
    assert_eq!(state.slashed_amount, 250);
}

#[test]
fn test_slash_event_contains_correct_event_data() {
    let (mut s, admin, _identity) = setup_with_bond(1000, 86400);
    let bond1 = s.slash(admin, 100).unwrap();
    assert_eq!(bond1.slashed_amount, 100);
    let bond2 = s.slash(admin, 200).unwrap();
    assert_eq!(bond2.slashed_amount, 300);
}

#[test]
fn test_slash_multiple_events() {
    let (mut s, admin, _identity) = setup_with_bond(1000, 86400);
    for i in 1..=3_i128 {
        let bond = s.slash(admin, 100 * i).unwrap();
        assert_eq!(bond.slashed_amount, 100 * (i * (i + 1) / 2));
    }
}

#[test]
fn test_withdraw_after_slash_respects_available() {
    let (mut s, admin, identity) = setup();
    s.create_bond(0, identity, 1000, 86400, false, 0).unwrap();
    s.slash(admin, 400).unwrap();
    let bond = s.withdraw(86401, 600).unwrap();
    assert_eq!(bond.bonded_amount, 400);
    assert_eq!(bond.slashed_amount, 400);
}

#[test]
fn test_withdraw_more_than_available_after_slash() {
    let (mut s, admin, identity) = setup();
    s.create_bond(0, identity, 1000, 86400, false, 0).unwrap();
    s.slash(admin, 400).unwrap();
    assert_eq!(s.withdraw(86401, 601), Err(BondError::InsufficientBalance));
}

#[test]
fn test_withdraw_when_fully_slashed() {
    let (mut s, admin, identity) = setup();
    s.create_bond(0, identity, 1000, 86400, false, 0).unwrap();
    s.slash(admin, 1000).unwrap();
    assert_eq!(s.withdraw(86401, 1), Err(BondError::InsufficientBalance));
}

#[test]
fn test_withdraw_exact_available_balance_after_slash() {
    let (mut s, admin, identity) = setup();
    s.create_bond(0, identity, 1000, 86400, false, 0).unwrap();
    s.slash(admin, 400).unwrap();
    let bond = s.withdraw(86401, 600).unwrap();
    assert_eq!(bond.bonded_amount, 400);
}

#[test]
fn test_slash_then_withdraw_then_slash_again() {
    let (mut s, admin, identity) = setup();
    s.create_bond(0, identity, 1000, 86400, false, 0).unwrap();
    s.slash(admin, 200).unwrap();
    assert_eq!(s.get_identity_state().unwrap().bonded_amount, 1000);
    s.withdraw(86401, 300).unwrap();
    assert_eq!(s.get_identity_state().unwrap().bonded_amount, 700);
    let bond = s.slash(admin, 100).unwrap();
    assert_eq!(bond.slashed_amount, 300);
    assert_eq!(bond.bonded_amount, 700);
}

#[test]
fn test_slash_after_partial_withdrawal() {
    let (mut s, admin, identity) = setup();
    s.create_bond(0, identity, 1000, 86400, false, 0).unwrap();
    s.withdraw(86401, 300).unwrap();
    assert_eq!(s.get_identity_state().unwrap().bonded_amount, 700);
    let bond = s.slash(admin, 200).unwrap();
    assert_eq!(bond.bonded_amount, 700);
    assert_eq!(bond.slashed_amount, 200);
    s.withdraw(86401, 500).unwrap();
    assert_eq!(s.get_identity_state().unwrap().bonded_amount, 200);
}

#[test]
fn test_cumulative_slash_with_capping() {
    let (mut s, admin, _identity) = setup_with_bond(1000, 86400);
    s.slash(admin, 600).unwrap();
    assert_eq!(s.get_identity_state().unwrap().slashed_amount, 600);
    let bond = s.slash(admin, 600).unwrap();
    assert_eq!(bond.slashed_amount, 1000);
}

#[test]
fn test_cumulative_slash_incremental() {
    let (mut s, admin, _identity) = setup_with_bond(10000, 86400);
    for i in 1..=10_i128 {
        let bond = s.slash(admin, 1000).unwrap();
        assert_eq!(bond.slashed_amount, i * 1000);
    }
}

#[test]
fn test_full_slash_prevents_further_slashing() {
    let (mut s, admin, _identity) = setup_with_bond(1000, 86400);
    s.slash(admin, 1000).unwrap();
    assert_eq!(s.get_identity_state().unwrap().slashed_amount, 1000);
    let bond = s.slash(admin, 500).unwrap();
    assert_eq!(bond.slashed_amount, 1000);
}

#[test]
fn test_slash_large_amounts() {
    let large_amount = 1_000_000_000_000_i128;
    let (mut s, admin, _identity) = setup_with_bond(large_amount, 86400);
    let bond1 = s.slash(admin, large_amount / 4).unwrap();
    assert_eq!(bond1.slashed_amount, large_amount / 4);
    let bond2 = s.slash(admin, large_amount / 4).unwrap();
    assert_eq!(bond2.slashed_amount, large_amount / 2);
}

#[test]
fn test_slash_state_persists() {
    let (mut s, admin, _identity) = setup_with_bond(1000, 86400);
    s.slash(admin, 300).unwrap();
    let bond1 = s.get_identity_state().unwrap();
    assert_eq!(bond1.slashed_amount, 300);
    let bond2 = s.get_identity_state().unwrap();
    assert_eq!(bond2.slashed_amount, 300);
}

#[test]
fn test_slash_result_matches_get_state() {
    let (mut s, admin, _identity) = setup_with_bond(1000, 86400);
    let slash_result = s.slash(admin, 250).unwrap();
    let state = s.get_identity_state().unwrap();
    assert_eq!(slash_result.slashed_amount, state.slashed_amount);
    assert_eq!(slash_result.bonded_amount, state.bonded_amount);
}

#[test]
fn test_error_message_not_admin() {
    let (mut s, _admin, _identity) = setup_with_bond(1000, 86400);
    let random: u64 = 88;
    assert_eq!(s.slash(random, 100), Err(BondError::NotAdmin));
}

#[test]
fn test_error_message_no_bond() {
    let (mut s, admin, _identity) = setup();
    assert_eq!(s.slash(admin, 100), Err(BondError::NoBond));
}

#[test]
fn test_slash_negative_amount_rejected() {
    let (mut s, admin, _identity) = setup_with_bond(1000, 86400);
    assert_eq!(s.slash(admin, -5), Err(BondError::NegativeAmount));
}
