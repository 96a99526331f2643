//! Entry points that end in an external call: full withdrawal, the rejecting
//! slash, and fee collection.
//!
//! Discipline (checks-effects-interactions): each of these validates, then
//! mutates the persisted state, and only then asks the host to perform the
//! external callback.  When a callback collaborator is registered, the entry
//! point returns with the reentrancy lock still held and hands the host a
//! [`CallbackCall`]; the host performs it and then calls
//! [`CredenceBond::release_lock`].  A callback that re-enters one of these
//! entry points while the lock is held is refused with a reentrancy error,
//! and it observes the post-mutation state, never stale data.  When no
//! callback is registered the lock is already released on return.

use vstd::prelude::*;
use crate::errors::BondError;
use crate::state::CredenceBond;
use crate::types::IdentityBond;

verus! {

/// Which hook of the callback collaborator the host must invoke.
#[derive(Clone, Copy, Debug, PartialEq, Eq, Structural)]
pub enum CallbackKind {
    OnWithdraw,
    OnSlash,
    OnCollect,
}

/// An external invocation the host owes the callback collaborator.
#[derive(Clone, Copy, Debug, PartialEq, Eq, Structural)]
pub struct CallbackCall {
    /// The registered callback collaborator.
    pub target: u64,
    /// The hook to invoke.
    pub kind: CallbackKind,
    /// The amount the hook is told about.
    pub amount: i128,
}

impl CredenceBond {
    /// The callback the guarded entry points hand back, if one is registered.
    pub open spec fn spec_callback(&self, kind: CallbackKind, amount: i128) -> Option<
        CallbackCall,
    > {
        match self.callback {
            Some(target) => Some(CallbackCall { target, kind, amount }),
            None => None,
        }
    }

    /// What `withdraw_bond_full` decides on this state and input.
    pub open spec fn spec_withdraw_bond_full(&self, identity: u64) -> Result<
        (i128, Option<CallbackCall>),
        BondError,
    > {
        if self.locked {
            Err(BondError::Reentrancy)
        } else {
            match self.bond {
                None => Err(BondError::NoBond),
                Some(b) => if b.identity != identity {
                    Err(BondError::NotBondOwner)
                } else if !b.active {
                    Err(BondError::BondNotActive)
                } else {
                    let amount = (b.bonded_amount - b.slashed_amount) as i128;
                    Ok((amount, self.spec_callback(CallbackKind::OnWithdraw, amount)))
                },
            }
        }
    }

    /// Withdraws the whole available balance back to the bond owner and
    /// deactivates the bond.  The host pushes the returned amount to the
    /// identity and performs the returned callback, if any, before releasing
    /// the lock.
    pub fn withdraw_bond_full(&mut self, identity: u64) -> (r: Result<
        (i128, Option<CallbackCall>),
        BondError,
    >)
        requires
            old(self).wf(),
        ensures
            final(self).wf(),
            r == old(self).spec_withdraw_bond_full(identity),
            r is Err ==> Self::unchanged(old(self), final(self)),
            r matches Ok(p) ==> {
                let b = old(self).bond->0;
                &&& p.0 == b.bonded_amount - b.slashed_amount
                &&& final(self).bond == Some(
                    IdentityBond { bonded_amount: 0, slashed_amount: 0, active: false, ..b },
                )
                &&& final(self).locked == (p.1 is Some)
                &&& final(self).fee_pool == old(self).fee_pool
                &&& final(self).events@ == old(self).events@
                &&& Self::gov_unchanged(old(self), final(self))
                &&& Self::att_unchanged(old(self), final(self))
                &&& Self::cfg_unchanged(old(self), final(self))
            },
    {
        match self.acquire_lock() {
            Err(e) => {
                return Err(e);
            },
            Ok(()) => {},
        }
        let bond = match self.bond {
            None => {
                self.release_lock();
                return Err(BondError::NoBond);
            },
            Some(b) => b,
        };
        if bond.identity != identity {
            self.release_lock();
            return Err(BondError::NotBondOwner);
        }
        if !bond.active {
            self.release_lock();
            return Err(BondError::BondNotActive);
        }
        let withdraw_amount = bond.bonded_amount - bond.slashed_amount;
        // state update before the external interaction
        let updated = IdentityBond {
            bonded_amount: 0,
            slashed_amount: 0,
            active: false,
            ..bond
        };
        self.bond = Some(updated);
        match self.callback {
            Some(target) => Ok(
                (
                    withdraw_amount,
                    Some(
                        CallbackCall {
                            target,
                            kind: CallbackKind::OnWithdraw,
                            amount: withdraw_amount,
                        },
                    ),
                ),
            ),
            None => {
                self.release_lock();
                Ok((withdraw_amount, None))
            },
        }
    }

    /// What `slash_bond` decides on this state and input.
    pub open spec fn spec_slash_bond(&self, caller: u64, slash_amount: i128) -> Result<
        (i128, Option<CallbackCall>),
        BondError,
    > {
        if self.locked {
            Err(BondError::Reentrancy)
        } else if self.spec_admin_check(caller) is Err {
            Err(self.spec_admin_check(caller)->Err_0)
        } else {
            match self.bond {
                None => Err(BondError::NoBond),
                Some(b) => if !b.active {
                    Err(BondError::BondNotActive)
                } else if slash_amount < 0 {
                    Err(BondError::NegativeAmount)
                } else if b.slashed_amount + slash_amount > i128::MAX {
                    Err(BondError::Overflow)
                } else if b.slashed_amount + slash_amount > b.bonded_amount {
                    Err(BondError::SlashExceedsBond)
                } else {
                    Ok(
                        (
                            (b.slashed_amount + slash_amount) as i128,
                            self.spec_callback(
                                CallbackKind::OnSlash,
                                slash_amount,
                            ),
                        ),
                    )
                },
            }
        }
    }

    /// Slashes the bond by the admin's authority, refusing a cumulative slash
    /// that would exceed the bonded amount.  (The unguarded `slash` entry
    /// point instead caps at the bonded amount; the two policies both exist
    /// in this protocol and are kept apart deliberately.)  Returns the new
    /// cumulative slashed amount and the callback the host owes, if any.
    pub fn slash_bond(&mut self, caller: u64, slash_amount: i128) -> (r: Result<
        (i128, Option<CallbackCall>),
        BondError,
    >)
        requires
            old(self).wf(),
        ensures
            final(self).wf(),
            r == old(self).spec_slash_bond(caller, slash_amount),
            r is Err ==> Self::unchanged(old(self), final(self)),
            r matches Ok(p) ==> {
                let b = old(self).bond->0;
                &&& p.0 == b.slashed_amount + slash_amount
                &&& final(self).bond == Some(IdentityBond { slashed_amount: p.0, ..b })
                &&& final(self).locked == (p.1 is Some)
                &&& final(self).fee_pool == old(self).fee_pool
                &&& final(self).events@ == old(self).events@
                &&& Self::gov_unchanged(old(self), final(self))
                &&& Self::att_unchanged(old(self), final(self))
                &&& Self::cfg_unchanged(old(self), final(self))
            },
    {
        match self.acquire_lock() {
            Err(e) => {
                return Err(e);
            },
            Ok(()) => {},
        }
        let admin = match self.admin {
            None => {
                self.release_lock();
                return Err(BondError::NotInitialized);
            },
            Some(a) => a,
        };
        if admin != caller {
            self.release_lock();
            return Err(BondError::NotAdmin);
        }
        let bond = match self.bond {
            None => {
                self.release_lock();
                return Err(BondError::NoBond);
            },
            Some(b) => b,
        };
        if !bond.active {
            self.release_lock();
            return Err(BondError::BondNotActive);
        }
        if slash_amount < 0 {
            self.release_lock();
            return Err(BondError::NegativeAmount);
        }
        if bond.slashed_amount > i128::MAX - slash_amount {
            self.release_lock();
            return Err(BondError::Overflow);
        }
        let new_slashed = bond.slashed_amount + slash_amount;
        if new_slashed > bond.bonded_amount {
            self.release_lock();
            return Err(BondError::SlashExceedsBond);
        }
        // state update before the external interaction
        let updated = IdentityBond { slashed_amount: new_slashed, ..bond };
        self.bond = Some(updated);
        match self.callback {
            Some(target) => Ok(
                (
                    new_slashed,
                    Some(CallbackCall { target, kind: CallbackKind::OnSlash, amount: slash_amount }),
                ),
            ),
            None => {
                self.release_lock();
                Ok((new_slashed, None))
            },
        }
    }

    /// What `collect_fees` decides on this state and input.
    pub open spec fn spec_collect_fees(&self, caller: u64) -> Result<
        (i128, Option<CallbackCall>),
        BondError,
    > {
        if self.locked {
            Err(BondError::Reentrancy)
        } else if self.spec_admin_check(caller) is Err {
            Err(self.spec_admin_check(caller)->Err_0)
        } else {
            Ok((self.fee_pool, self.spec_callback(CallbackKind::OnCollect, self.fee_pool)))
        }
    }

    /// Collects the accumulated protocol fees, zeroing the pool.  Admin only.
    /// The host pays the returned amount out and performs the returned
    /// callback, if any, before releasing the lock.
    pub fn collect_fees(&mut self, caller: u64) -> (r: Result<
        (i128, Option<CallbackCall>),
        BondError,
    >)
        requires
            old(self).wf(),
        ensures
            final(self).wf(),
            r == old(self).spec_collect_fees(caller),
            r is Err ==> Self::unchanged(old(self), final(self)),
            r matches Ok(p) ==> {
                &&& p.0 == old(self).fee_pool
                &&& final(self).fee_pool == 0
                &&& final(self).bond == old(self).bond
                &&& final(self).locked == (p.1 is Some)
                &&& final(self).events@ == old(self).events@
                &&& Self::gov_unchanged(old(self), final(self))
                &&& Self::att_unchanged(old(self), final(self))
                &&& Self::cfg_unchanged(old(self), final(self))
            },
    {
        match self.acquire_lock() {
            Err(e) => {
                return Err(e);
            },
            Ok(()) => {},
        }
        let admin = match self.admin {
            None => {
                self.release_lock();
                return Err(BondError::NotInitialized);
            },
            Some(a) => a,
        };
        if admin != caller {
            self.release_lock();
            return Err(BondError::NotAdmin);
        }
        let fees = self.fee_pool;
        // state update before the external interaction
        self.fee_pool = 0;
        match self.callback {
            Some(target) => Ok(
                (fees, Some(CallbackCall { target, kind: CallbackKind::OnCollect, amount: fees })),
            ),
            None => {
                self.release_lock();
                Ok((fees, None))
            },
        }
    }
}

} // verus!
