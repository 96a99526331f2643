//! Delegation registry: an owner grants a delegate a typed, expiring
//! capability (attestation or management) that the owner can revoke.

use vstd::prelude::*;
use crate::kv::KvMap3;

verus! {

/// What a delegation permits the delegate to do on the owner's behalf.
#[derive(Clone, Copy, Debug, PartialEq, Eq, Structural)]
pub enum DelegationType {
    Attestation,
    Management,
}

/// Lifecycle answer for an attestation-type delegation.
#[derive(Clone, Copy, Debug, PartialEq, Eq, Structural)]
pub enum AttestationStatus {
    Active,
    Revoked,
    NotFound,
}

/// A stored delegation.
#[derive(Clone, Copy, Debug, PartialEq, Eq, Structural)]
pub struct Delegation {
    pub owner: u64,
    pub delegate: u64,
    pub delegation_type: DelegationType,
    pub expires_at: u64,
    pub revoked: bool,
}

/// Why a delegation call was refused.
#[derive(Clone, Copy, Debug, PartialEq, Eq, Structural)]
pub enum DelegationError {
    /// The contract already has an admin.
    AlreadyInitialized,
    /// The expiry must lie in the future.
    ExpiryNotFuture,
    /// No such delegation exists.
    DelegationNotFound,
    /// The delegation was already revoked.
    AlreadyRevoked,
}

/// The store key of a delegation type.
pub open spec fn spec_type_key(t: DelegationType) -> u64 {
    match t {
        DelegationType::Attestation => 0,
        DelegationType::Management => 1,
    }
}

/// Converts a delegation type to its store key.
pub fn type_key(t: DelegationType) -> (r: u64)
    ensures
        r == spec_type_key(t),
{
    match t {
        DelegationType::Attestation => 0,
        DelegationType::Management => 1,
    }
}

/// One deployment of the delegation registry.
pub struct CredenceDelegation {
    /// The administrator identity, if initialized.
    pub admin: Option<u64>,
    /// Delegations by (owner, delegate, type key).
    pub delegations: KvMap3<Delegation>,
}

impl CredenceDelegation {
    /// Well-formedness: the store is well shaped.
    pub open spec fn wf(&self) -> bool {
        self.delegations.wf()
    }

    /// The stored delegation for the triple, if any.
    pub open spec fn spec_delegation(
        &self,
        owner: u64,
        delegate: u64,
        delegation_type: DelegationType,
    ) -> Option<Delegation> {
        let key = (owner, delegate, spec_type_key(delegation_type));
        if self.delegations@.dom().contains(key) {
            Some(self.delegations@[key])
        } else {
            None
        }
    }

    /// A fresh, uninitialized registry.
    pub fn new() -> (r: Self)
        ensures
            r.wf(),
            r.admin is None,
            r.delegations@ =~= Map::<(u64, u64, u64), Delegation>::empty(),
    {
        CredenceDelegation { admin: None, delegations: KvMap3::new() }
    }

    /// Initializes the registry with an admin, once.
    pub fn initialize(&mut self, admin: u64) -> (r: Result<(), DelegationError>)
        requires
            old(self).wf(),
        ensures
            final(self).wf(),
            r is Ok <==> old(self).admin is None,
            r is Err ==> *final(self) == *old(self) && r == Err::<(), _>(
                DelegationError::AlreadyInitialized,
            ),
            r is Ok ==> final(self).admin == Some(admin) && final(self).delegations@ == old(
                self,
            ).delegations@,
    {
        if self.admin.is_some() {
            return Err(DelegationError::AlreadyInitialized);
        }
        self.admin = Some(admin);
        Ok(())
    }

    /// Creates (or overwrites) a delegation from owner to delegate with the
    /// given type; the expiry must lie strictly in the future.
    pub fn delegate(
        &mut self,
        now: u64,
        owner: u64,
        delegate: u64,
        delegation_type: DelegationType,
        expires_at: u64,
    ) -> (r: Result<Delegation, DelegationError>)
        requires
            old(self).wf(),
        ensures
            final(self).wf(),
            r is Ok <==> expires_at > now,
            r is Err ==> *final(self) == *old(self) && r == Err::<Delegation, _>(
                DelegationError::ExpiryNotFuture,
            ),
            r matches Ok(d) ==> {
                &&& d == (Delegation { owner, delegate, delegation_type, expires_at, revoked: false })
                &&& final(self).delegations@ == old(self).delegations@.insert(
                    (owner, delegate, spec_type_key(delegation_type)),
                    d,
                )
                &&& final(self).admin == old(self).admin
            },
    {
        if expires_at <= now {
            return Err(DelegationError::ExpiryNotFuture);
        }
        let d = Delegation { owner, delegate, delegation_type, expires_at, revoked: false };
        self.delegations.set((owner, delegate, type_key(delegation_type)), d);
        Ok(d)
    }

    /// What revocation decides for the triple.
    pub open spec fn spec_revoke(
        &self,
        owner: u64,
        delegate: u64,
        delegation_type: DelegationType,
    ) -> Result<(), DelegationError> {
        match self.spec_delegation(owner, delegate, delegation_type) {
            None => Err(DelegationError::DelegationNotFound),
            Some(d) => if d.revoked {
                Err(DelegationError::AlreadyRevoked)
            } else {
                Ok(())
            },
        }
    }

    /// Revokes an existing, unrevoked delegation.  Owner-authorized.
    pub fn revoke_delegation(
        &mut self,
        owner: u64,
        delegate: u64,
        delegation_type: DelegationType,
    ) -> (r: Result<(), DelegationError>)
        requires
            old(self).wf(),
        ensures
            final(self).wf(),
            r == old(self).spec_revoke(owner, delegate, delegation_type),
            r is Err ==> *final(self) == *old(self),
            r is Ok ==> {
                let key = (owner, delegate, spec_type_key(delegation_type));
                let d = old(self).delegations@[key];
                &&& final(self).delegations@ == old(self).delegations@.insert(
                    key,
                    Delegation { revoked: true, ..d },
                )
                &&& final(self).admin == old(self).admin
            },
    {
        let key = (owner, delegate, type_key(delegation_type));
        let d = match self.delegations.get(key) {
            None => {
                return Err(DelegationError::DelegationNotFound);
            },
            Some(d) => *d,
        };
        if d.revoked {
            return Err(DelegationError::AlreadyRevoked);
        }
        self.delegations.set(key, Delegation { revoked: true, ..d });
        Ok(())
    }

    /// Revokes the attestation-type delegation from attester to subject;
    /// the same transition as `revoke_delegation` with that type.
    pub fn revoke_attestation(&mut self, attester: u64, subject: u64) -> (r: Result<
        (),
        DelegationError,
    >)
        requires
            old(self).wf(),
        ensures
            final(self).wf(),
            r == old(self).spec_revoke(attester, subject, DelegationType::Attestation),
            r is Err ==> *final(self) == *old(self),
            r is Ok ==> {
                let key = (attester, subject, spec_type_key(DelegationType::Attestation));
                let d = old(self).delegations@[key];
                &&& final(self).delegations@ == old(self).delegations@.insert(
                    key,
                    Delegation { revoked: true, ..d },
                )
                &&& final(self).admin == old(self).admin
            },
    {
        self.revoke_delegation(attester, subject, DelegationType::Attestation)
    }

    /// Retrieves a stored delegation.
    pub fn get_delegation(
        &self,
        owner: u64,
        delegate: u64,
        delegation_type: DelegationType,
    ) -> (r: Result<Delegation, DelegationError>)
        requires
            self.wf(),
        ensures
            r == match self.spec_delegation(owner, delegate, delegation_type) {
                Some(d) => Ok::<_, DelegationError>(d),
                None => Err::<Delegation, _>(DelegationError::DelegationNotFound),
            },
    {
        match self.delegations.get((owner, delegate, type_key(delegation_type))) {
            Some(d) => Ok(*d),
            None => Err(DelegationError::DelegationNotFound),
        }
    }

    /// Whether the delegate currently holds a valid (unrevoked, unexpired)
    /// delegation of the given type from the owner.
    pub fn is_valid_delegate(
        &self,
        now: u64,
        owner: u64,
        delegate: u64,
        delegation_type: DelegationType,
    ) -> (r: bool)
        requires
            self.wf(),
        ensures
            r == match self.spec_delegation(owner, delegate, delegation_type) {
                Some(d) => !d.revoked && d.expires_at > now,
                None => false,
            },
    {
        match self.delegations.get((owner, delegate, type_key(delegation_type))) {
            Some(d) => !d.revoked && d.expires_at > now,
            None => false,
        }
    }

    /// The status of the attestation-type delegation from attester to
    /// subject.  Expiry does not affect this answer; only revocation does.
    pub fn get_attestation_status(&self, attester: u64, subject: u64) -> (r: AttestationStatus)
        requires
            self.wf(),
        ensures
            r == match self.spec_delegation(attester, subject, DelegationType::Attestation) {
                Some(d) => if d.revoked {
                    AttestationStatus::Revoked
                } else {
                    AttestationStatus::Active
                },
                None => AttestationStatus::NotFound,
            },
    {
        match self.delegations.get((attester, subject, type_key(DelegationType::Attestation))) {
            Some(d) => if d.revoked {
                AttestationStatus::Revoked
            } else {
                AttestationStatus::Active
            },
            None => AttestationStatus::NotFound,
        }
    }
}

} // verus!
