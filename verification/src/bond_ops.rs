//! Bond lifecycle: creation with fee, top-up, duration extension, withdrawal
//! with and without penalty, rolling renewal, and the capping slash
//! primitive.
//!
//! The host performs the value transfers these operations decide on (pull on
//! create and top-up, push on withdrawal and penalty payout); an error means
//! the whole invocation aborts and nothing, transfers included, happens.

use vstd::prelude::*;
use crate::early_exit_penalty::{penalty_checked, spec_penalty, spec_penalty_fits};
use crate::errors::BondError;
use crate::events::AuditEvent;
use crate::fees::{calculate_fee, lemma_fee_bounds, spec_fee, spec_fee_fits};
use crate::rolling_bond::{
    can_withdraw_after_notice, is_period_ended, sat_add, spec_can_withdraw_after_notice,
    spec_period_ended,
};
use crate::state::CredenceBond;
use crate::tiered_bond::{get_tier_for_amount, spec_tier, BondTier};
use crate::types::IdentityBond;

verus! {

impl CredenceBond {
    /// The events of `post` are those of `pre`, plus a tier-change entry
    /// exactly when the two tiers differ.
    pub open spec fn spec_tier_events(
        pre: Seq<AuditEvent>,
        identity: u64,
        old_tier: BondTier,
        new_tier: BondTier,
    ) -> Seq<AuditEvent> {
        if old_tier != new_tier {
            pre.push(AuditEvent::TierChanged { identity, new_tier })
        } else {
            pre
        }
    }

    /// Appends a tier-change event exactly when the tier differs from the
    /// prior one; tiers that carry no change stay silent.
    pub fn emit_tier_change_if_needed(
        &mut self,
        identity: u64,
        old_tier: BondTier,
        new_tier: BondTier,
    )
        requires
            old(self).wf(),
        ensures
            final(self).wf(),
            final(self).events@ == Self::spec_tier_events(
                old(self).events@,
                identity,
                old_tier,
                new_tier,
            ),
            Self::gov_unchanged(old(self), final(self)),
            Self::att_unchanged(old(self), final(self)),
            Self::cfg_unchanged(old(self), final(self)),
            Self::bond_unchanged(old(self), final(self)),
    {
        if old_tier != new_tier {
            self.events.push(AuditEvent::TierChanged { identity, new_tier });
        }
    }

    /// The bond a successful creation stores.
    pub open spec fn spec_created_bond(
        &self,
        now: u64,
        identity: u64,
        amount: i128,
        duration: u64,
        is_rolling: bool,
        notice_period_duration: u64,
    ) -> IdentityBond {
        IdentityBond {
            identity,
            bonded_amount: (amount - spec_fee(amount, self.fee_bps)) as i128,
            bond_start: now,
            bond_duration: duration,
            slashed_amount: 0,
            active: true,
            is_rolling,
            withdrawal_requested_at: 0,
            notice_period_duration,
        }
    }

    /// Whether a successful creation records a fee: one was owed and a
    /// treasury is configured.
    pub open spec fn spec_fee_recorded(&self, amount: i128) -> bool {
        spec_fee(amount, self.fee_bps) > 0 && self.fee_treasury is Some
    }

    /// What `create_bond` decides on this state and input.
    pub open spec fn spec_create_bond(
        &self,
        now: u64,
        identity: u64,
        amount: i128,
        duration: u64,
        is_rolling: bool,
        notice_period_duration: u64,
    ) -> Result<IdentityBond, BondError> {
        if amount < 0 {
            Err(BondError::NegativeAmount)
        } else if now + duration > u64::MAX {
            Err(BondError::Overflow)
        } else if !spec_fee_fits(amount, self.fee_bps) {
            Err(BondError::Overflow)
        } else if self.spec_fee_recorded(amount) && self.fee_pool + spec_fee(amount, self.fee_bps)
            > i128::MAX {
            Err(BondError::Overflow)
        } else {
            Ok(self.spec_created_bond(now, identity, amount, duration, is_rolling,
                notice_period_duration))
        }
    }

    /// Creates (or overwrites) the bond: deducts the configured creation fee
    /// from the posted amount, records the fee for the treasury when one is
    /// configured, stores the new bond, and reports the tier relative to the
    /// Bronze baseline.  The host pulls `amount` from the identity and is
    /// handed the stored record back.
    pub fn create_bond_with_rolling(
        &mut self,
        now: u64,
        identity: u64,
        amount: i128,
        duration: u64,
        is_rolling: bool,
        notice_period_duration: u64,
    ) -> (r: Result<IdentityBond, BondError>)
        requires
            old(self).wf(),
        ensures
            final(self).wf(),
            r == old(self).spec_create_bond(now, identity, amount, duration, is_rolling,
                notice_period_duration),
            r is Err ==> Self::unchanged(old(self), final(self)),
            r matches Ok(b) ==> {
                let fee = spec_fee(amount, old(self).fee_bps);
                let with_fee_ev = if old(self).spec_fee_recorded(amount) {
                    old(self).events@.push(
                        AuditEvent::BondCreationFee {
                            identity,
                            bond_amount: amount,
                            fee: fee as i128,
                            treasury: old(self).fee_treasury->0,
                        },
                    )
                } else {
                    old(self).events@
                };
                &&& final(self).bond == Some(b)
                &&& b.bonded_amount == amount - fee
                &&& final(self).fee_pool == old(self).fee_pool + if old(self).spec_fee_recorded(
                    amount,
                ) {
                    fee
                } else {
                    0
                }
                &&& final(self).locked == old(self).locked
                &&& final(self).events@ == Self::spec_tier_events(
                    with_fee_ev,
                    identity,
                    BondTier::Bronze,
                    spec_tier(b.bonded_amount),
                )
                &&& Self::gov_unchanged(old(self), final(self))
                &&& Self::att_unchanged(old(self), final(self))
                &&& Self::cfg_unchanged(old(self), final(self))
            },
    {
        if amount < 0 {
            return Err(BondError::NegativeAmount);
        }
        if duration > u64::MAX - now {
            return Err(BondError::Overflow);
        }
        let (fee, net_amount) = match calculate_fee(amount, self.fee_bps) {
            None => {
                return Err(BondError::Overflow);
            },
            Some(p) => p,
        };
        proof {
            lemma_fee_bounds(amount, self.fee_bps);
        }
        if fee > 0 && self.fee_treasury.is_some() {
            let treasury = match self.fee_treasury {
                Some(t) => t,
                None => unreached(),
            };
            if self.fee_pool > i128::MAX - fee {
                return Err(BondError::Overflow);
            }
            self.fee_pool = self.fee_pool + fee;
            self.events.push(
                AuditEvent::BondCreationFee { identity, bond_amount: amount, fee, treasury },
            );
        }
        let bond = IdentityBond {
            identity,
            bonded_amount: net_amount,
            bond_start: now,
            bond_duration: duration,
            slashed_amount: 0,
            active: true,
            is_rolling,
            withdrawal_requested_at: 0,
            notice_period_duration,
        };
        self.bond = Some(bond);
        let new_tier = get_tier_for_amount(net_amount);
        self.emit_tier_change_if_needed(identity, BondTier::Bronze, new_tier);
        Ok(bond)
    }

    /// Creates a bond; same as `create_bond_with_rolling`, with the same
    /// contract.
    pub fn create_bond(
        &mut self,
        now: u64,
        identity: u64,
        amount: i128,
        duration: u64,
        is_rolling: bool,
        notice_period_duration: u64,
    ) -> (r: Result<IdentityBond, BondError>)
        requires
            old(self).wf(),
        ensures
            final(self).wf(),
            r == old(self).spec_create_bond(now, identity, amount, duration, is_rolling,
                notice_period_duration),
            r is Err ==> Self::unchanged(old(self), final(self)),
            r matches Ok(b) ==> {
                let fee = spec_fee(amount, old(self).fee_bps);
                let with_fee_ev = if old(self).spec_fee_recorded(amount) {
                    old(self).events@.push(
                        AuditEvent::BondCreationFee {
                            identity,
                            bond_amount: amount,
                            fee: fee as i128,
                            treasury: old(self).fee_treasury->0,
                        },
                    )
                } else {
                    old(self).events@
                };
                &&& final(self).bond == Some(b)
                &&& b.bonded_amount == amount - fee
                &&& final(self).fee_pool == old(self).fee_pool + if old(self).spec_fee_recorded(
                    amount,
                ) {
                    fee
                } else {
                    0
                }
                &&& final(self).locked == old(self).locked
                &&& final(self).events@ == Self::spec_tier_events(
                    with_fee_ev,
                    identity,
                    BondTier::Bronze,
                    spec_tier(b.bonded_amount),
                )
                &&& Self::gov_unchanged(old(self), final(self))
                &&& Self::att_unchanged(old(self), final(self))
                &&& Self::cfg_unchanged(old(self), final(self))
            },
    {
        self.create_bond_with_rolling(now, identity, amount, duration, is_rolling,
            notice_period_duration)
    }

    /// The stored bond record.
    pub fn get_identity_state(&self) -> (r: Result<IdentityBond, BondError>)
        ensures
            r == match self.bond {
                Some(b) => Ok::<_, BondError>(b),
                None => Err::<IdentityBond, _>(BondError::NoBond),
            },
    {
        match self.bond {
            Some(b) => Ok(b),
            None => Err(BondError::NoBond),
        }
    }

    /// The stored bond's tier.
    pub fn get_tier(&self) -> (r: Result<BondTier, BondError>)
        ensures
            r == match self.bond {
                Some(b) => Ok::<_, BondError>(spec_tier(b.bonded_amount)),
                None => Err::<BondTier, _>(BondError::NoBond),
            },
    {
        match self.bond {
            Some(b) => Ok(get_tier_for_amount(b.bonded_amount)),
            None => Err(BondError::NoBond),
        }
    }

    /// What `top_up` decides on this state and input.
    pub open spec fn spec_top_up(&self, amount: i128) -> Result<IdentityBond, BondError> {
        match self.bond {
            None => Err(BondError::NoBond),
            Some(b) => if amount < 0 {
                Err(BondError::NegativeAmount)
            } else if b.bonded_amount + amount > i128::MAX {
                Err(BondError::Overflow)
            } else {
                Ok(IdentityBond { bonded_amount: (b.bonded_amount + amount) as i128, ..b })
            },
        }
    }

    /// Adds to the bonded amount (the host pulls the value in), reporting a
    /// tier change when the addition crosses a threshold.
    pub fn top_up(&mut self, amount: i128) -> (r: Result<IdentityBond, BondError>)
        requires
            old(self).wf(),
        ensures
            final(self).wf(),
            r == old(self).spec_top_up(amount),
            r is Err ==> Self::unchanged(old(self), final(self)),
            r matches Ok(b) ==> {
                &&& final(self).bond == Some(b)
                &&& b.bonded_amount == old(self).bond->0.bonded_amount + amount
                &&& final(self).events@ == Self::spec_tier_events(
                    old(self).events@,
                    b.identity,
                    spec_tier(old(self).bond->0.bonded_amount),
                    spec_tier(b.bonded_amount),
                )
                &&& final(self).locked == old(self).locked
                &&& final(self).fee_pool == old(self).fee_pool
                &&& Self::gov_unchanged(old(self), final(self))
                &&& Self::att_unchanged(old(self), final(self))
                &&& Self::cfg_unchanged(old(self), final(self))
            },
    {
        let bond = match self.bond {
            None => {
                return Err(BondError::NoBond);
            },
            Some(b) => b,
        };
        if amount < 0 {
            return Err(BondError::NegativeAmount);
        }
        if amount > i128::MAX - bond.bonded_amount {
            return Err(BondError::Overflow);
        }
        let old_tier = get_tier_for_amount(bond.bonded_amount);
        let updated = IdentityBond { bonded_amount: bond.bonded_amount + amount, ..bond };
        self.bond = Some(updated);
        let new_tier = get_tier_for_amount(updated.bonded_amount);
        self.emit_tier_change_if_needed(updated.identity, old_tier, new_tier);
        Ok(updated)
    }

    /// What `extend_duration` decides on this state and input.
    pub open spec fn spec_extend_duration(&self, additional_duration: u64) -> Result<
        IdentityBond,
        BondError,
    > {
        match self.bond {
            None => Err(BondError::NoBond),
            Some(b) => if b.bond_duration + additional_duration > u64::MAX {
                Err(BondError::Overflow)
            } else if b.bond_start + b.bond_duration + additional_duration > u64::MAX {
                Err(BondError::Overflow)
            } else {
                Ok(
                    IdentityBond {
                        bond_duration: (b.bond_duration + additional_duration) as u64,
                        ..b
                    },
                )
            },
        }
    }

    /// Extends the bond duration; both the duration itself and the projected
    /// end timestamp must stay representable.
    pub fn extend_duration(&mut self, additional_duration: u64) -> (r: Result<
        IdentityBond,
        BondError,
    >)
        requires
            old(self).wf(),
        ensures
            final(self).wf(),
            r == old(self).spec_extend_duration(additional_duration),
            r is Err ==> Self::unchanged(old(self), final(self)),
            r matches Ok(b) ==> {
                &&& final(self).bond == Some(b)
                &&& final(self).events@ == old(self).events@
                &&& final(self).locked == old(self).locked
                &&& final(self).fee_pool == old(self).fee_pool
                &&& Self::gov_unchanged(old(self), final(self))
                &&& Self::att_unchanged(old(self), final(self))
                &&& Self::cfg_unchanged(old(self), final(self))
            },
    {
        let bond = match self.bond {
            None => {
                return Err(BondError::NoBond);
            },
            Some(b) => b,
        };
        if additional_duration > u64::MAX - bond.bond_duration {
            return Err(BondError::Overflow);
        }
        let new_duration = bond.bond_duration + additional_duration;
        if new_duration > u64::MAX - bond.bond_start {
            return Err(BondError::Overflow);
        }
        let updated = IdentityBond { bond_duration: new_duration, ..bond };
        self.bond = Some(updated);
        Ok(updated)
    }

    /// The amount check shared by the withdrawal paths: the request must not
    /// exceed `bonded - slashed`, and the new bonded amount must stay
    /// representable.
    pub open spec fn spec_withdraw_amount_check(b: IdentityBond, amount: i128) -> Result<
        IdentityBond,
        BondError,
    > {
        if amount > b.bonded_amount - b.slashed_amount {
            Err(BondError::InsufficientBalance)
        } else if b.bonded_amount - amount > i128::MAX {
            Err(BondError::Overflow)
        } else {
            Ok(IdentityBond { bonded_amount: (b.bonded_amount - amount) as i128, ..b })
        }
    }

    /// What `withdraw_bond` decides on this state and input: for non-rolling
    /// bonds the lock-up must have elapsed; for rolling bonds a withdrawal
    /// request must exist and the notice period must have elapsed.
    pub open spec fn spec_withdraw(&self, now: u64, amount: i128) -> Result<
        IdentityBond,
        BondError,
    > {
        match self.bond {
            None => Err(BondError::NoBond),
            Some(b) => if b.is_rolling {
                if b.withdrawal_requested_at == 0 || !spec_can_withdraw_after_notice(
                    now,
                    b.withdrawal_requested_at,
                    b.notice_period_duration,
                ) {
                    Err(BondError::NoticeNotElapsed)
                } else {
                    Self::spec_withdraw_amount_check(b, amount)
                }
            } else if now < sat_add(b.bond_start, b.bond_duration) {
                Err(BondError::LockupNotElapsed)
            } else {
                Self::spec_withdraw_amount_check(b, amount)
            },
        }
    }

    /// Withdraws from the bond without penalty.  Succeeds exactly when the
    /// timing rule holds, `amount <= bonded - slashed`, and the subtraction
    /// stays representable; on success the bonded amount decreases by exactly
    /// `amount` and the host pushes that value to the identity.
    pub fn withdraw_bond(&mut self, now: u64, amount: i128) -> (r: Result<IdentityBond, BondError>)
        requires
            old(self).wf(),
        ensures
            final(self).wf(),
            r == old(self).spec_withdraw(now, amount),
            r is Err ==> Self::unchanged(old(self), final(self)),
            r matches Ok(b) ==> {
                &&& final(self).bond == Some(b)
                &&& b.bonded_amount == old(self).bond->0.bonded_amount - amount
                &&& b.slashed_amount == old(self).bond->0.slashed_amount
                &&& final(self).events@ == Self::spec_tier_events(
                    old(self).events@,
                    b.identity,
                    spec_tier(old(self).bond->0.bonded_amount),
                    spec_tier(b.bonded_amount),
                )
                &&& final(self).locked == old(self).locked
                &&& final(self).fee_pool == old(self).fee_pool
                &&& Self::gov_unchanged(old(self), final(self))
                &&& Self::att_unchanged(old(self), final(self))
                &&& Self::cfg_unchanged(old(self), final(self))
            },
    {
        let bond = match self.bond {
            None => {
                return Err(BondError::NoBond);
            },
            Some(b) => b,
        };
        if bond.is_rolling {
            if bond.withdrawal_requested_at == 0 {
                return Err(BondError::NoticeNotElapsed);
            }
            if !can_withdraw_after_notice(
                now,
                bond.withdrawal_requested_at,
                bond.notice_period_duration,
            ) {
                return Err(BondError::NoticeNotElapsed);
            }
        } else {
            let end = if bond.bond_duration > u64::MAX - bond.bond_start {
                u64::MAX
            } else {
                bond.bond_start + bond.bond_duration
            };
            if now < end {
                return Err(BondError::LockupNotElapsed);
            }
        }
        let available = bond.bonded_amount - bond.slashed_amount;
        if amount > available {
            return Err(BondError::InsufficientBalance);
        }
        if amount < 0 && bond.bonded_amount > i128::MAX + amount {
            return Err(BondError::Overflow);
        }
        let old_tier = get_tier_for_amount(bond.bonded_amount);
        let updated = IdentityBond { bonded_amount: bond.bonded_amount - amount, ..bond };
        self.bond = Some(updated);
        let new_tier = get_tier_for_amount(updated.bonded_amount);
        self.emit_tier_change_if_needed(updated.identity, old_tier, new_tier);
        Ok(updated)
    }

    /// What `withdraw_early` decides on this state and input.
    pub open spec fn spec_withdraw_early(&self, now: u64, amount: i128) -> Result<
        IdentityBond,
        BondError,
    > {
        match self.bond {
            None => Err(BondError::NoBond),
            Some(b) => {
                let end = sat_add(b.bond_start, b.bond_duration);
                if now >= end {
                    Err(BondError::LockupElapsed)
                } else if amount > b.bonded_amount - b.slashed_amount {
                    Err(BondError::InsufficientBalance)
                } else {
                    match self.early_exit {
                        None => Err(BondError::ConfigNotSet),
                        Some(cfg) => if !spec_penalty_fits(amount, (end - now) as u64, cfg.1) {
                            Err(BondError::Overflow)
                        } else if b.bonded_amount - amount > i128::MAX {
                            Err(BondError::Overflow)
                        } else {
                            Ok(IdentityBond { bonded_amount: (b.bonded_amount - amount) as i128, ..b })
                        },
                    }
                }
            },
        }
    }

    /// The penalty a successful early withdrawal charges.
    pub open spec fn spec_early_penalty(&self, now: u64, amount: i128) -> int {
        let b = self.bond->0;
        let end = sat_add(b.bond_start, b.bond_duration);
        spec_penalty(amount, (end - now) as u64, b.bond_duration, (self.early_exit->0).1)
    }

    /// Withdraws before the lock-up ends, charging the configured early-exit
    /// penalty, proportional to the lock time remaining.  The host pushes
    /// `amount - penalty` to the identity and the penalty to the treasury; the
    /// bonded amount decreases by the full `amount`.
    pub fn withdraw_early(&mut self, now: u64, amount: i128) -> (r: Result<IdentityBond, BondError>)
        requires
            old(self).wf(),
        ensures
            final(self).wf(),
            r == old(self).spec_withdraw_early(now, amount),
            r is Err ==> Self::unchanged(old(self), final(self)),
            r matches Ok(b) ==> {
                let penalty = old(self).spec_early_penalty(now, amount);
                let with_penalty_ev = old(self).events@.push(
                    AuditEvent::EarlyExitPenalty {
                        identity: b.identity,
                        withdraw_amount: amount,
                        penalty: penalty as i128,
                        treasury: (old(self).early_exit->0).0,
                    },
                );
                &&& final(self).bond == Some(b)
                &&& b.bonded_amount == old(self).bond->0.bonded_amount - amount
                &&& b.slashed_amount == old(self).bond->0.slashed_amount
                &&& final(self).events@ == Self::spec_tier_events(
                    with_penalty_ev,
                    b.identity,
                    spec_tier(old(self).bond->0.bonded_amount),
                    spec_tier(b.bonded_amount),
                )
                &&& final(self).locked == old(self).locked
                &&& final(self).fee_pool == old(self).fee_pool
                &&& Self::gov_unchanged(old(self), final(self))
                &&& Self::att_unchanged(old(self), final(self))
                &&& Self::cfg_unchanged(old(self), final(self))
            },
    {
        let bond = match self.bond {
            None => {
                return Err(BondError::NoBond);
            },
            Some(b) => b,
        };
        let end = if bond.bond_duration > u64::MAX - bond.bond_start {
            u64::MAX
        } else {
            bond.bond_start + bond.bond_duration
        };
        if now >= end {
            return Err(BondError::LockupElapsed);
        }
        let available = bond.bonded_amount - bond.slashed_amount;
        if amount > available {
            return Err(BondError::InsufficientBalance);
        }
        let (treasury, penalty_bps) = match self.early_exit {
            None => {
                return Err(BondError::ConfigNotSet);
            },
            Some(cfg) => cfg,
        };
        let remaining = end - now;
        let penalty = match penalty_checked(amount, remaining, bond.bond_duration, penalty_bps) {
            None => {
                return Err(BondError::Overflow);
            },
            Some(p) => p,
        };
        if amount < 0 && bond.bonded_amount > i128::MAX + amount {
            return Err(BondError::Overflow);
        }
        self.events.push(
            AuditEvent::EarlyExitPenalty {
                identity: bond.identity,
                withdraw_amount: amount,
                penalty,
                treasury,
            },
        );
        let old_tier = get_tier_for_amount(bond.bonded_amount);
        let updated = IdentityBond { bonded_amount: bond.bonded_amount - amount, ..bond };
        self.bond = Some(updated);
        let new_tier = get_tier_for_amount(updated.bonded_amount);
        self.emit_tier_change_if_needed(updated.identity, old_tier, new_tier);
        Ok(updated)
    }

    /// What `request_withdrawal` decides on this state.
    pub open spec fn spec_request_withdrawal(&self, now: u64) -> Result<IdentityBond, BondError> {
        match self.bond {
            None => Err(BondError::NoBond),
            Some(b) => if !b.is_rolling {
                Err(BondError::NotRolling)
            } else if b.withdrawal_requested_at != 0 {
                Err(BondError::AlreadyRequested)
            } else {
                Ok(IdentityBond { withdrawal_requested_at: now, ..b })
            },
        }
    }

    /// Records the withdrawal request time for a rolling bond, once.
    pub fn request_withdrawal(&mut self, now: u64) -> (r: Result<IdentityBond, BondError>)
        requires
            old(self).wf(),
        ensures
            final(self).wf(),
            r == old(self).spec_request_withdrawal(now),
            r is Err ==> Self::unchanged(old(self), final(self)),
            r matches Ok(b) ==> {
                &&& final(self).bond == Some(b)
                &&& final(self).events@ == old(self).events@.push(
                    AuditEvent::WithdrawalRequested { identity: b.identity, requested_at: now },
                )
                &&& final(self).locked == old(self).locked
                &&& final(self).fee_pool == old(self).fee_pool
                &&& Self::gov_unchanged(old(self), final(self))
                &&& Self::att_unchanged(old(self), final(self))
                &&& Self::cfg_unchanged(old(self), final(self))
            },
    {
        let bond = match self.bond {
            None => {
                return Err(BondError::NoBond);
            },
            Some(b) => b,
        };
        if !bond.is_rolling {
            return Err(BondError::NotRolling);
        }
        if bond.withdrawal_requested_at != 0 {
            return Err(BondError::AlreadyRequested);
        }
        let updated = IdentityBond { withdrawal_requested_at: now, ..bond };
        self.bond = Some(updated);
        self.events.push(
            AuditEvent::WithdrawalRequested { identity: updated.identity, requested_at: now },
        );
        Ok(updated)
    }

    /// Whether `renew_if_rolling` advances the bond at this time.
    pub open spec fn spec_renews(&self, now: u64) -> bool {
        match self.bond {
            None => false,
            Some(b) => b.is_rolling && spec_period_ended(now, b.bond_start, b.bond_duration),
        }
    }

    /// What `renew_if_rolling` returns on this state.
    pub open spec fn spec_renew_if_rolling(&self, now: u64) -> Result<IdentityBond, BondError> {
        match self.bond {
            None => Err(BondError::NoBond),
            Some(b) => if self.spec_renews(now) {
                Ok(IdentityBond { bond_start: now, withdrawal_requested_at: 0, ..b })
            } else {
                Ok(b)
            },
        }
    }

    /// Advances a rolling bond to a new period once the current one has
    /// ended; a no-op otherwise.  Renewal clears a pending withdrawal
    /// request, silently cancelling the holder's exit intent; the protocol
    /// defines it so, and it is kept deliberately.
    pub fn renew_if_rolling(&mut self, now: u64) -> (r: Result<IdentityBond, BondError>)
        requires
            old(self).wf(),
        ensures
            final(self).wf(),
            r == old(self).spec_renew_if_rolling(now),
            r is Err ==> Self::unchanged(old(self), final(self)),
            !old(self).spec_renews(now) ==> Self::unchanged(old(self), final(self)),
            r matches Ok(b) ==> old(self).spec_renews(now) ==> {
                &&& final(self).bond == Some(b)
                &&& final(self).events@ == old(self).events@.push(
                    AuditEvent::BondRenewed {
                        identity: b.identity,
                        bond_start: now,
                        bond_duration: b.bond_duration,
                    },
                )
                &&& final(self).locked == old(self).locked
                &&& final(self).fee_pool == old(self).fee_pool
                &&& Self::gov_unchanged(old(self), final(self))
                &&& Self::att_unchanged(old(self), final(self))
                &&& Self::cfg_unchanged(old(self), final(self))
            },
    {
        let bond = match self.bond {
            None => {
                return Err(BondError::NoBond);
            },
            Some(b) => b,
        };
        if !bond.is_rolling {
            return Ok(bond);
        }
        if !is_period_ended(now, bond.bond_start, bond.bond_duration) {
            return Ok(bond);
        }
        let mut renewed = bond;
        crate::rolling_bond::apply_renewal(&mut renewed, now);
        self.bond = Some(renewed);
        self.events.push(
            AuditEvent::BondRenewed {
                identity: renewed.identity,
                bond_start: now,
                bond_duration: renewed.bond_duration,
            },
        );
        Ok(renewed)
    }

    /// What the capping slash primitive decides on this state and input.
    pub open spec fn spec_slash(&self, caller: u64, amount: i128) -> Result<
        IdentityBond,
        BondError,
    > {
        if self.spec_admin_check(caller) is Err {
            Err(self.spec_admin_check(caller)->Err_0)
        } else {
            match self.bond {
                None => Err(BondError::NoBond),
                Some(b) => if !b.active {
                    Err(BondError::BondNotActive)
                } else if amount < 0 {
                    Err(BondError::NegativeAmount)
                } else if b.slashed_amount + amount > i128::MAX {
                    Err(BondError::Overflow)
                } else {
                    let new_slashed = if b.slashed_amount + amount > b.bonded_amount {
                        b.bonded_amount
                    } else {
                        (b.slashed_amount + amount) as i128
                    };
                    Ok(IdentityBond { slashed_amount: new_slashed, ..b })
                },
            }
        }
    }

    /// Slashes the bond by the admin's authority, capping the cumulative
    /// slashed amount at the bonded amount.  The bond stays active; a fully
    /// slashed bond simply has nothing left to withdraw.  (The guarded
    /// `slash_bond` entry point instead refuses a slash that would exceed the
    /// bonded amount; the two policies both exist in this protocol and are
    /// kept apart deliberately.)
    pub fn slash(&mut self, caller: u64, amount: i128) -> (r: Result<IdentityBond, BondError>)
        requires
            old(self).wf(),
        ensures
            final(self).wf(),
            r == old(self).spec_slash(caller, amount),
            r is Err ==> Self::unchanged(old(self), final(self)),
            r matches Ok(b) ==> {
                &&& final(self).bond == Some(b)
                &&& b.bonded_amount == old(self).bond->0.bonded_amount
                &&& b.slashed_amount <= b.bonded_amount
                &&& final(self).events@ == old(self).events@
                &&& final(self).locked == old(self).locked
                &&& final(self).fee_pool == old(self).fee_pool
                &&& Self::gov_unchanged(old(self), final(self))
                &&& Self::att_unchanged(old(self), final(self))
                &&& Self::cfg_unchanged(old(self), final(self))
            },
    {
        match self.require_admin(caller) {
            Err(e) => {
                return Err(e);
            },
            Ok(()) => {},
        }
        let bond = match self.bond {
            None => {
                return Err(BondError::NoBond);
            },
            Some(b) => b,
        };
        if !bond.active {
            return Err(BondError::BondNotActive);
        }
        if amount < 0 {
            return Err(BondError::NegativeAmount);
        }
        if bond.slashed_amount > i128::MAX - amount {
            return Err(BondError::Overflow);
        }
        let summed = bond.slashed_amount + amount;
        let new_slashed = if summed > bond.bonded_amount {
            bond.bonded_amount
        } else {
            summed
        };
        let updated = IdentityBond { slashed_amount: new_slashed, ..bond };
        self.bond = Some(updated);
        Ok(updated)
    }

    /// Adds to the fee pool.
    pub fn deposit_fees(&mut self, amount: i128) -> (r: Result<(), BondError>)
        requires
            old(self).wf(),
        ensures
            final(self).wf(),
            r is Ok <==> i128::MIN <= old(self).fee_pool + amount <= i128::MAX,
            r is Err ==> r == Err::<(), _>(BondError::Overflow) && Self::unchanged(
                old(self),
                final(self),
            ),
            r is Ok ==> {
                &&& final(self).fee_pool == old(self).fee_pool + amount
                &&& final(self).bond == old(self).bond
                &&& final(self).locked == old(self).locked
                &&& final(self).events@ == old(self).events@
                &&& Self::gov_unchanged(old(self), final(self))
                &&& Self::att_unchanged(old(self), final(self))
                &&& Self::cfg_unchanged(old(self), final(self))
            },
    {
        if amount >= 0 {
            if self.fee_pool > i128::MAX - amount {
                return Err(BondError::Overflow);
            }
        } else {
            if self.fee_pool < i128::MIN - amount {
                return Err(BondError::Overflow);
            }
        }
        self.fee_pool = self.fee_pool + amount;
        Ok(())
    }

    /// Sets the bond-creation fee configuration.  Admin only; the rate must
    /// not exceed 10000 basis points.
    pub fn set_fee_config(&mut self, caller: u64, treasury: u64, fee_bps: u32) -> (r: Result<
        (),
        BondError,
    >)
        requires
            old(self).wf(),
        ensures
            final(self).wf(),
            r == (match old(self).spec_admin_check(caller) {
                Err(e) => Err(e),
                Ok(()) => if fee_bps > 10000 {
                    Err::<(), _>(BondError::InvalidBps)
                } else {
                    Ok::<_, BondError>(())
                },
            }),
            r is Err ==> Self::unchanged(old(self), final(self)),
            r is Ok ==> {
                &&& final(self).fee_treasury == Some(treasury)
                &&& final(self).fee_bps == fee_bps
                &&& final(self).admin == old(self).admin
                &&& final(self).token == old(self).token
                &&& final(self).callback == old(self).callback
                &&& final(self).early_exit == old(self).early_exit
                &&& final(self).events@ == old(self).events@
                &&& Self::gov_unchanged(old(self), final(self))
                &&& Self::att_unchanged(old(self), final(self))
                &&& Self::bond_unchanged(old(self), final(self))
            },
    {
        match self.require_admin(caller) {
            Err(e) => {
                return Err(e);
            },
            Ok(()) => {},
        }
        if fee_bps > 10_000 {
            return Err(BondError::InvalidBps);
        }
        self.fee_treasury = Some(treasury);
        self.fee_bps = fee_bps;
        Ok(())
    }

    /// The fee configuration `(treasury, fee_bps)`; no treasury means no fee.
    pub fn get_fee_config(&self) -> (r: (Option<u64>, u32))
        ensures
            r.0 == self.fee_treasury,
            r.1 == self.fee_bps,
    {
        (self.fee_treasury, self.fee_bps)
    }

    /// Sets the early-exit penalty configuration.  Admin only; the rate must
    /// not exceed 10000 basis points.
    pub fn set_early_exit_config(&mut self, caller: u64, treasury: u64, penalty_bps: u32) -> (r:
        Result<(), BondError>)
        requires
            old(self).wf(),
        ensures
            final(self).wf(),
            r == (match old(self).spec_admin_check(caller) {
                Err(e) => Err(e),
                Ok(()) => if penalty_bps > 10000 {
                    Err::<(), _>(BondError::InvalidBps)
                } else {
                    Ok::<_, BondError>(())
                },
            }),
            r is Err ==> Self::unchanged(old(self), final(self)),
            r is Ok ==> {
                &&& final(self).early_exit == Some((treasury, penalty_bps))
                &&& final(self).admin == old(self).admin
                &&& final(self).token == old(self).token
                &&& final(self).callback == old(self).callback
                &&& final(self).fee_treasury == old(self).fee_treasury
                &&& final(self).fee_bps == old(self).fee_bps
                &&& final(self).events@ == old(self).events@
                &&& Self::gov_unchanged(old(self), final(self))
                &&& Self::att_unchanged(old(self), final(self))
                &&& Self::bond_unchanged(old(self), final(self))
            },
    {
        match self.require_admin(caller) {
            Err(e) => {
                return Err(e);
            },
            Ok(()) => {},
        }
        if penalty_bps > 10_000 {
            return Err(BondError::InvalidBps);
        }
        self.early_exit = Some((treasury, penalty_bps));
        Ok(())
    }

    /// Whether a bond creation for this amount owes no fee: no rate is
    /// configured or the amount is not positive.
    pub fn is_fee_waived(&self, amount: i128) -> (r: bool)
        ensures
            r == (self.fee_bps == 0 || amount <= 0),
    {
        self.fee_bps == 0 || amount <= 0
    }

    /// The early-exit configuration `(treasury, penalty_bps)`, if set.
    pub fn get_early_exit_config(&self) -> (r: Option<(u64, u32)>)
        ensures
            r == self.early_exit,
    {
        self.early_exit
    }

    /// Withdraws from the bond; same as `withdraw_bond`, with the same
    /// contract.
    pub fn withdraw(&mut self, now: u64, amount: i128) -> (r: Result<IdentityBond, BondError>)
        requires
            old(self).wf(),
        ensures
            final(self).wf(),
            r == old(self).spec_withdraw(now, amount),
            r is Err ==> Self::unchanged(old(self), final(self)),
            r matches Ok(b) ==> {
                &&& final(self).bond == Some(b)
                &&& b.bonded_amount == old(self).bond->0.bonded_amount - amount
                &&& b.slashed_amount == old(self).bond->0.slashed_amount
                &&& final(self).events@ == Self::spec_tier_events(
                    old(self).events@,
                    b.identity,
                    spec_tier(old(self).bond->0.bonded_amount),
                    spec_tier(b.bonded_amount),
                )
                &&& final(self).locked == old(self).locked
                &&& final(self).fee_pool == old(self).fee_pool
                &&& Self::gov_unchanged(old(self), final(self))
                &&& Self::att_unchanged(old(self), final(self))
                &&& Self::cfg_unchanged(old(self), final(self))
            },
    {
        self.withdraw_bond(now, amount)
    }
}

} // verus!
