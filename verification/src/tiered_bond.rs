//! Tier classification: maps a bonded amount to a tier bucket.

use vstd::prelude::*;

verus! {

/// Identity tier based on bonded amount (Bronze < Silver < Gold < Platinum).
#[derive(Clone, Copy, Debug, PartialEq, Eq, Structural)]
pub enum BondTier {
    Bronze,
    Silver,
    Gold,
    Platinum,
}

/// Upper bound of the Bronze bucket (smallest unit, six-decimal asset).
pub const TIER_BRONZE_MAX: i128 = 1_000_000_000;
/// Upper bound of the Silver bucket.
pub const TIER_SILVER_MAX: i128 = 5_000_000_000;
/// Upper bound of the Gold bucket.
pub const TIER_GOLD_MAX: i128 = 20_000_000_000;

/// The tier a bonded amount falls in: Bronze on [i128::MIN, TIER_BRONZE_MAX),
/// Silver on [TIER_BRONZE_MAX, TIER_SILVER_MAX), Gold on
/// [TIER_SILVER_MAX, TIER_GOLD_MAX), Platinum above.
pub open spec fn spec_tier(amount: i128) -> BondTier {
    if amount < TIER_BRONZE_MAX {
        BondTier::Bronze
    } else if amount < TIER_SILVER_MAX {
        BondTier::Silver
    } else if amount < TIER_GOLD_MAX {
        BondTier::Gold
    } else {
        BondTier::Platinum
    }
}

/// Returns the tier for a given bonded amount.
pub fn get_tier_for_amount(amount: i128) -> (tier: BondTier)
    ensures
        tier == spec_tier(amount),
{
    if amount < TIER_BRONZE_MAX {
        BondTier::Bronze
    } else if amount < TIER_SILVER_MAX {
        BondTier::Silver
    } else if amount < TIER_GOLD_MAX {
        BondTier::Gold
    } else {
        BondTier::Platinum
    }
}

} // verus!
