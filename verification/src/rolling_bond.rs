//! Rolling-bond timing rules: period end, notice period, and renewal.

use vstd::prelude::*;
use crate::types::IdentityBond;

verus! {

/// Addition on timestamps that saturates at the largest representable value.
pub open spec fn sat_add(a: u64, b: u64) -> u64 {
    if a + b > u64::MAX {
        u64::MAX
    } else {
        (a + b) as u64
    }
}

/// Whether the bond's current period has ended at `now`.
pub open spec fn spec_period_ended(now: u64, bond_start: u64, bond_duration: u64) -> bool {
    now >= sat_add(bond_start, bond_duration)
}

/// Whether a withdrawal was requested and the notice period has elapsed.
pub open spec fn spec_can_withdraw_after_notice(
    now: u64,
    withdrawal_requested_at: u64,
    notice_period_duration: u64,
) -> bool {
    withdrawal_requested_at != 0 && now >= sat_add(
        withdrawal_requested_at,
        notice_period_duration,
    )
}

/// Returns true if the bond has passed its period end
/// (`bond_start + bond_duration`, saturating).
pub fn is_period_ended(now: u64, bond_start: u64, bond_duration: u64) -> (r: bool)
    ensures
        r == spec_period_ended(now, bond_start, bond_duration),
{
    let end = if bond_duration > u64::MAX - bond_start {
        u64::MAX
    } else {
        bond_start + bond_duration
    };
    now >= end
}

/// Returns true if a withdrawal was requested and the notice period has
/// elapsed.
pub fn can_withdraw_after_notice(
    now: u64,
    withdrawal_requested_at: u64,
    notice_period_duration: u64,
) -> (r: bool)
    ensures
        r == spec_can_withdraw_after_notice(
            now,
            withdrawal_requested_at,
            notice_period_duration,
        ),
{
    if withdrawal_requested_at == 0 {
        return false;
    }
    let notice_end = if notice_period_duration > u64::MAX - withdrawal_requested_at {
        u64::MAX
    } else {
        withdrawal_requested_at + notice_period_duration
    };
    now >= notice_end
}

/// Advances the bond to a new period: sets `bond_start` to the given time and
/// clears any pending withdrawal request, leaving every other field alone.
/// Clearing the request means a renewal silently cancels a pending exit
/// intent; the protocol defines it so, and it is kept deliberately rather
/// than silently repaired.
pub fn apply_renewal(bond: &mut IdentityBond, new_start: u64)
    ensures
        *final(bond) == (IdentityBond {
            bond_start: new_start,
            withdrawal_requested_at: 0,
            ..*old(bond)
        }),
{
    bond.bond_start = new_start;
    bond.withdrawal_requested_at = 0;
}

} // verus!
