//! Attestation registry: attester authorization, stake-weighted attestation
//! creation with replay protection and deduplication, and revocation.

use vstd::prelude::*;
use vstd::arithmetic::div_mod::{
    lemma_div_is_ordered, lemma_div_multiples_vanish, lemma_div_pos_is_pos,
};
use crate::errors::BondError;
use crate::events::AuditEvent;
use crate::state::{copy_u64_vec, CredenceBond, DEFAULT_MAX_WEIGHT, DEFAULT_WEIGHT_MULTIPLIER_BPS};
use crate::types::{Attestation, MAX_ATTESTATION_WEIGHT};

verus! {

impl CredenceBond {
    /// Whether the identity is currently an authorized attester.
    pub open spec fn spec_is_attester(&self, attester: u64) -> bool {
        self.attesters@.dom().contains(attester) && self.attesters@[attester]
    }

    /// The stored replay counter of an identity; zero until first use.
    pub open spec fn spec_nonce_of(&self, identity: u64) -> u64 {
        if self.nonces@.dom().contains(identity) {
            self.nonces@[identity]
        } else {
            0
        }
    }

    /// The configured stake of an attester; zero until set.
    pub open spec fn spec_stake_of(&self, attester: u64) -> i128 {
        if self.attester_stakes@.dom().contains(attester) {
            self.attester_stakes@[attester]
        } else {
            0
        }
    }

    /// The weight configuration `(multiplier_bps, max_weight)`, defaults when
    /// unset.
    pub open spec fn spec_weight_params(&self) -> (u32, u32) {
        match self.weight_config {
            Some(wc) => wc,
            None => (DEFAULT_WEIGHT_MULTIPLIER_BPS, DEFAULT_MAX_WEIGHT),
        }
    }

    /// The weight a new attestation by this attester gets: 1 when no positive
    /// stake is configured, else `floor(stake * multiplier_bps / 10000)`
    /// capped at the configured maximum and raised to at least 1.
    pub open spec fn spec_weight_of(&self, attester: u64) -> int {
        let stake = self.spec_stake_of(attester);
        let mult = self.spec_weight_params().0;
        let maxw = self.spec_weight_params().1;
        if stake <= 0 {
            1
        } else {
            let w = stake * mult / 10000;
            let capped = if w > maxw {
                maxw as int
            } else {
                w
            };
            if capped < 1 {
                1
            } else {
                capped
            }
        }
    }

    /// Whether a live attestation with this dedup key exists.
    pub open spec fn spec_dedup_live(&self, key: (u64, u64, u64)) -> bool {
        self.dedup@.dom().contains(key) && self.dedup@[key]
    }

    /// The ordered attestation ids of a subject; revocation keeps entries.
    pub open spec fn spec_subject_list(&self, subject: u64) -> Seq<u64> {
        if self.subject_lists@.dom().contains(subject) {
            self.subject_lists@[subject]@
        } else {
            Seq::empty()
        }
    }

    /// The live-attestation count cache of a subject.
    pub open spec fn spec_subject_count(&self, subject: u64) -> u32 {
        if self.subject_counts@.dom().contains(subject) {
            self.subject_counts@[subject]
        } else {
            0
        }
    }

    /// Marks the identity as an authorized attester.  The contract must be
    /// initialized; the caller is deliberately not matched against the
    /// admin, so any caller can register an attester once an admin exists.
    pub fn register_attester(&mut self, attester: u64) -> (r: Result<(), BondError>)
        requires
            old(self).wf(),
        ensures
            final(self).wf(),
            r is Ok <==> old(self).admin is Some,
            r is Err ==> r == Err::<(), _>(BondError::NotInitialized) && Self::unchanged(
                old(self),
                final(self),
            ),
            r is Ok ==> {
                &&& final(self).attesters@ == old(self).attesters@.insert(attester, true)
                &&& final(self).attester_stakes@ == old(self).attester_stakes@
                &&& final(self).nonces@ == old(self).nonces@
                &&& final(self).attestation_counter == old(self).attestation_counter
                &&& final(self).attestations@ == old(self).attestations@
                &&& final(self).dedup@ == old(self).dedup@
                &&& final(self).subject_lists@ == old(self).subject_lists@
                &&& final(self).subject_counts@ == old(self).subject_counts@
                &&& final(self).weight_config == old(self).weight_config
                &&& Self::gov_unchanged(old(self), final(self))
                &&& Self::cfg_unchanged(old(self), final(self))
                &&& Self::bond_unchanged(old(self), final(self))
                &&& final(self).events@ == old(self).events@.push(
                    AuditEvent::AttesterRegistered { attester },
                )
            },
    {
        if self.admin.is_none() {
            return Err(BondError::NotInitialized);
        }
        self.attesters.set(attester, true);
        self.events.push(AuditEvent::AttesterRegistered { attester });
        Ok(())
    }

    /// Removes the identity from the authorized attester set.  The contract
    /// must be initialized; as with registration, the caller is deliberately
    /// not matched against the admin.
    pub fn unregister_attester(&mut self, attester: u64) -> (r: Result<(), BondError>)
        requires
            old(self).wf(),
        ensures
            final(self).wf(),
            r is Ok <==> old(self).admin is Some,
            r is Err ==> r == Err::<(), _>(BondError::NotInitialized) && Self::unchanged(
                old(self),
                final(self),
            ),
            r is Ok ==> {
                &&& final(self).attesters@ == old(self).attesters@.insert(attester, false)
                &&& !final(self).spec_is_attester(attester)
                &&& final(self).attester_stakes@ == old(self).attester_stakes@
                &&& final(self).nonces@ == old(self).nonces@
                &&& final(self).attestation_counter == old(self).attestation_counter
                &&& final(self).attestations@ == old(self).attestations@
                &&& final(self).dedup@ == old(self).dedup@
                &&& final(self).subject_lists@ == old(self).subject_lists@
                &&& final(self).subject_counts@ == old(self).subject_counts@
                &&& final(self).weight_config == old(self).weight_config
                &&& Self::gov_unchanged(old(self), final(self))
                &&& Self::cfg_unchanged(old(self), final(self))
                &&& Self::bond_unchanged(old(self), final(self))
                &&& final(self).events@ == old(self).events@.push(
                    AuditEvent::AttesterUnregistered { attester },
                )
            },
    {
        if self.admin.is_none() {
            return Err(BondError::NotInitialized);
        }
        self.attesters.set(attester, false);
        self.events.push(AuditEvent::AttesterUnregistered { attester });
        Ok(())
    }

    /// Whether the identity is an authorized attester.
    pub fn is_attester(&self, attester: u64) -> (r: bool)
        requires
            self.wf(),
        ensures
            r == self.spec_is_attester(attester),
    {
        match self.attesters.get(attester) {
            Some(b) => *b,
            None => false,
        }
    }

    /// The current replay counter of an identity.  The caller must supply
    /// exactly this value in its next state-changing call.
    pub fn get_nonce(&self, identity: u64) -> (r: u64)
        requires
            self.wf(),
        ensures
            r == self.spec_nonce_of(identity),
    {
        match self.nonces.get(identity) {
            Some(n) => *n,
            None => 0,
        }
    }

    /// Checks the supplied nonce against the stored one and increments it.
    /// Succeeds exactly when the nonce matches and the increment stays
    /// representable (it never wraps); a mismatch is a replay or an
    /// out-of-order request.
    pub fn consume_nonce(&mut self, identity: u64, expected_nonce: u64) -> (r: Result<
        (),
        BondError,
    >)
        requires
            old(self).wf(),
        ensures
            final(self).wf(),
            r is Ok <==> expected_nonce == old(self).spec_nonce_of(identity) && expected_nonce
                < u64::MAX,
            r is Err ==> Self::unchanged(old(self), final(self)) && (r == Err::<(), _>(
                BondError::Replay,
            ) <==> expected_nonce != old(self).spec_nonce_of(identity)),
            r is Ok ==> {
                &&& final(self).nonces@ == old(self).nonces@.insert(
                    identity,
                    (expected_nonce + 1) as u64,
                )
                &&& final(self).spec_nonce_of(identity) == expected_nonce + 1
                &&& final(self).attesters@ == old(self).attesters@
                &&& final(self).attester_stakes@ == old(self).attester_stakes@
                &&& final(self).attestation_counter == old(self).attestation_counter
                &&& final(self).attestations@ == old(self).attestations@
                &&& final(self).dedup@ == old(self).dedup@
                &&& final(self).subject_lists@ == old(self).subject_lists@
                &&& final(self).subject_counts@ == old(self).subject_counts@
                &&& final(self).weight_config == old(self).weight_config
                &&& Self::gov_unchanged(old(self), final(self))
                &&& Self::cfg_unchanged(old(self), final(self))
                &&& Self::bond_unchanged(old(self), final(self))
                &&& final(self).events@ == old(self).events@
            },
    {
        let current = self.get_nonce(identity);
        if current != expected_nonce {
            return Err(BondError::Replay);
        }
        if current == u64::MAX {
            return Err(BondError::Overflow);
        }
        self.nonces.set(identity, current + 1);
        Ok(())
    }

    /// Sets the configured stake of an attester.  Admin only; the stake must
    /// be non-negative.
    pub fn set_attester_stake(&mut self, caller: u64, attester: u64, amount: i128) -> (r: Result<
        (),
        BondError,
    >)
        requires
            old(self).wf(),
        ensures
            final(self).wf(),
            r == (match old(self).spec_admin_check(caller) {
                Err(e) => Err(e),
                Ok(()) => if amount < 0 {
                    Err::<(), _>(BondError::NegativeAmount)
                } else {
                    Ok::<_, BondError>(())
                },
            }),
            r is Err ==> Self::unchanged(old(self), final(self)),
            r is Ok ==> {
                &&& final(self).attester_stakes@ == old(self).attester_stakes@.insert(
                    attester,
                    amount,
                )
                &&& final(self).spec_stake_of(attester) == amount
                &&& final(self).attesters@ == old(self).attesters@
                &&& final(self).nonces@ == old(self).nonces@
                &&& final(self).attestation_counter == old(self).attestation_counter
                &&& final(self).attestations@ == old(self).attestations@
                &&& final(self).dedup@ == old(self).dedup@
                &&& final(self).subject_lists@ == old(self).subject_lists@
                &&& final(self).subject_counts@ == old(self).subject_counts@
                &&& final(self).weight_config == old(self).weight_config
                &&& Self::gov_unchanged(old(self), final(self))
                &&& Self::cfg_unchanged(old(self), final(self))
                &&& Self::bond_unchanged(old(self), final(self))
                &&& final(self).events@ == old(self).events@
            },
    {
        match self.require_admin(caller) {
            Err(e) => {
                return Err(e);
            },
            Ok(()) => {},
        }
        if amount < 0 {
            return Err(BondError::NegativeAmount);
        }
        self.attester_stakes.set(attester, amount);
        Ok(())
    }

    /// The configured stake of an attester, zero when unset.
    pub fn get_attester_stake(&self, attester: u64) -> (r: i128)
        requires
            self.wf(),
        ensures
            r == self.spec_stake_of(attester),
    {
        match self.attester_stakes.get(attester) {
            Some(s) => *s,
            None => 0,
        }
    }

    /// Sets the weight configuration.  Admin only; the stored maximum weight
    /// is capped at the protocol maximum.
    pub fn set_weight_config(&mut self, caller: u64, multiplier_bps: u32, max_weight: u32) -> (r:
        Result<(), BondError>)
        requires
            old(self).wf(),
        ensures
            final(self).wf(),
            r == old(self).spec_admin_check(caller),
            r is Err ==> Self::unchanged(old(self), final(self)),
            r is Ok ==> {
                &&& final(self).weight_config == Some(
                    (
                        multiplier_bps,
                        if max_weight <= MAX_ATTESTATION_WEIGHT {
                            max_weight
                        } else {
                            MAX_ATTESTATION_WEIGHT
                        },
                    ),
                )
                &&& final(self).attesters@ == old(self).attesters@
                &&& final(self).attester_stakes@ == old(self).attester_stakes@
                &&& final(self).nonces@ == old(self).nonces@
                &&& final(self).attestation_counter == old(self).attestation_counter
                &&& final(self).attestations@ == old(self).attestations@
                &&& final(self).dedup@ == old(self).dedup@
                &&& final(self).subject_lists@ == old(self).subject_lists@
                &&& final(self).subject_counts@ == old(self).subject_counts@
                &&& Self::gov_unchanged(old(self), final(self))
                &&& Self::cfg_unchanged(old(self), final(self))
                &&& Self::bond_unchanged(old(self), final(self))
                &&& final(self).events@ == old(self).events@
            },
    {
        match self.require_admin(caller) {
            Err(e) => {
                return Err(e);
            },
            Ok(()) => {},
        }
        let cap = if max_weight <= MAX_ATTESTATION_WEIGHT {
            max_weight
        } else {
            MAX_ATTESTATION_WEIGHT
        };
        self.weight_config = Some((multiplier_bps, cap));
        Ok(())
    }

    /// The weight configuration `(multiplier_bps, max_weight)`, defaults when
    /// unset.
    pub fn get_weight_config(&self) -> (r: (u32, u32))
        ensures
            r == self.spec_weight_params(),
    {
        match self.weight_config {
            Some(wc) => wc,
            None => (DEFAULT_WEIGHT_MULTIPLIER_BPS, DEFAULT_MAX_WEIGHT),
        }
    }

    /// Computes the weight a new attestation by this attester gets.  The
    /// result is always a valid weight: positive and within the protocol cap.
    pub fn compute_weight(&self, attester: u64) -> (r: u32)
        requires
            self.wf(),
        ensures
            r == self.spec_weight_of(attester),
            Attestation::spec_weight_valid(r),
    {
        let stake = self.get_attester_stake(attester);
        let (multiplier_bps, max_weight) = self.get_weight_config();
        if stake <= 0 {
            return 1;
        }
        let ghost w = stake * multiplier_bps / 10000int;
        proof {
            assert(stake * multiplier_bps >= 0) by (nonlinear_arith)
                requires stake > 0, multiplier_bps >= 0;
            lemma_div_pos_is_pos(stake * multiplier_bps, 10000);
        }
        let capped: u32 = match (stake as u128).checked_mul(multiplier_bps as u128) {
            None => {
                proof {
                    assert((max_weight as int + 1) * 10000 == max_weight as int * 10000 + 10000)
                        by (nonlinear_arith);
                    lemma_div_is_ordered(
                        (max_weight as int + 1) * 10000,
                        stake * multiplier_bps,
                        10000,
                    );
                    lemma_div_multiples_vanish(max_weight as int + 1, 10000);
                }
                max_weight
            },
            Some(p) => {
                let q = p / 10_000;
                if q > max_weight as u128 {
                    max_weight
                } else {
                    q as u32
                }
            },
        };
        if capped < 1 {
            1
        } else {
            capped
        }
    }
    /// The attestation a successful `add_attestation` stores.
    pub open spec fn spec_new_attestation(
        &self,
        now: u64,
        attester: u64,
        subject: u64,
        attestation_data: u64,
    ) -> Attestation {
        Attestation {
            id: self.attestation_counter,
            verifier: attester,
            identity: subject,
            timestamp: now,
            weight: self.spec_weight_of(attester) as u32,
            attestation_data,
            revoked: false,
        }
    }

    /// What `add_attestation` decides on this state and input.
    pub open spec fn spec_add_attestation(
        &self,
        now: u64,
        attester: u64,
        subject: u64,
        attestation_data: u64,
        nonce: u64,
    ) -> Result<Attestation, BondError> {
        if !self.spec_is_attester(attester) {
            Err(BondError::NotAttester)
        } else if nonce != self.spec_nonce_of(attester) {
            Err(BondError::Replay)
        } else if nonce == u64::MAX {
            Err(BondError::Overflow)
        } else if self.spec_dedup_live((attester, subject, attestation_data)) {
            Err(BondError::DuplicateAttestation)
        } else if self.attestation_counter == u64::MAX {
            Err(BondError::Overflow)
        } else {
            Ok(self.spec_new_attestation(now, attester, subject, attestation_data))
        }
    }

    /// Adds a stake-weighted attestation about a subject.  Only an authorized
    /// attester may call, the nonce must match (replay protection), and no
    /// live attestation with the same verifier, subject and payload may
    /// exist.  The new attestation gets the next sequential id, joins the
    /// subject's id list, and raises the subject's live count.
    pub fn add_attestation(
        &mut self,
        now: u64,
        attester: u64,
        subject: u64,
        attestation_data: u64,
        nonce: u64,
    ) -> (r: Result<Attestation, BondError>)
        requires
            old(self).wf(),
        ensures
            final(self).wf(),
            r == old(self).spec_add_attestation(now, attester, subject, attestation_data, nonce),
            r is Err ==> Self::unchanged(old(self), final(self)),
            r matches Ok(a) ==> {
                &&& a.id == old(self).attestation_counter
                &&& final(self).attestation_counter == a.id + 1
                &&& final(self).attestations@ == old(self).attestations@.insert(a.id, a)
                &&& final(self).nonces@ == old(self).nonces@.insert(attester, (nonce + 1) as u64)
                &&& final(self).dedup@ == old(self).dedup@.insert(
                    (attester, subject, attestation_data),
                    true,
                )
                &&& final(self).spec_subject_list(subject) == old(self).spec_subject_list(
                    subject,
                ).push(a.id)
                &&& forall|s: u64|
                    s != subject ==> final(self).spec_subject_list(s) == old(
                        self,
                    ).spec_subject_list(s)
                &&& final(self).spec_subject_count(subject) == if old(self).spec_subject_count(
                    subject,
                ) == u32::MAX {
                    u32::MAX as int
                } else {
                    old(self).spec_subject_count(subject) + 1
                }
                &&& forall|s: u64|
                    s != subject ==> final(self).spec_subject_count(s) == old(
                        self,
                    ).spec_subject_count(s)
                &&& final(self).attesters@ == old(self).attesters@
                &&& final(self).attester_stakes@ == old(self).attester_stakes@
                &&& final(self).weight_config == old(self).weight_config
                &&& Self::gov_unchanged(old(self), final(self))
                &&& Self::cfg_unchanged(old(self), final(self))
                &&& Self::bond_unchanged(old(self), final(self))
                &&& final(self).events@ == old(self).events@.push(
                    AuditEvent::AttestationAdded {
                        subject,
                        id: a.id,
                        attester,
                        data: attestation_data,
                        weight: a.weight,
                    },
                )
            },
    {
        if !self.is_attester(attester) {
            return Err(BondError::NotAttester);
        }
        let current = self.get_nonce(attester);
        if nonce != current {
            return Err(BondError::Replay);
        }
        if nonce == u64::MAX {
            return Err(BondError::Overflow);
        }
        let dedup_key = (attester, subject, attestation_data);
        let live = match self.dedup.get(dedup_key) {
            Some(b) => *b,
            None => false,
        };
        if live {
            return Err(BondError::DuplicateAttestation);
        }
        let id = self.attestation_counter;
        if id == u64::MAX {
            return Err(BondError::Overflow);
        }
        let weight = self.compute_weight(attester);
        let attestation = Attestation {
            id,
            verifier: attester,
            identity: subject,
            timestamp: now,
            weight,
            attestation_data,
            revoked: false,
        };
        self.nonces.set(attester, nonce + 1);
        self.attestation_counter = id + 1;
        self.attestations.set(id, attestation);
        self.dedup.set(dedup_key, true);
        let mut list = match self.subject_lists.get(subject) {
            Some(v) => copy_u64_vec(v),
            None => Vec::new(),
        };
        list.push(id);
        self.subject_lists.set(subject, list);
        let count = match self.subject_counts.get(subject) {
            Some(c) => *c,
            None => 0,
        };
        let new_count = if count == u32::MAX {
            u32::MAX
        } else {
            count + 1
        };
        self.subject_counts.set(subject, new_count);
        self.events.push(
            AuditEvent::AttestationAdded {
                subject,
                id,
                attester,
                data: attestation_data,
                weight,
            },
        );
        Ok(attestation)
    }

    /// What `revoke_attestation` decides on this state and input.
    pub open spec fn spec_revoke_attestation(
        &self,
        attester: u64,
        attestation_id: u64,
        nonce: u64,
    ) -> Result<(), BondError> {
        if nonce != self.spec_nonce_of(attester) {
            Err(BondError::Replay)
        } else if nonce == u64::MAX {
            Err(BondError::Overflow)
        } else if !self.attestations@.dom().contains(attestation_id) {
            Err(BondError::AttestationNotFound)
        } else if self.attestations@[attestation_id].verifier != attester {
            Err(BondError::NotVerifier)
        } else if self.attestations@[attestation_id].revoked {
            Err(BondError::AlreadyRevoked)
        } else {
            Ok(())
        }
    }

    /// Revokes an attestation.  Only the original verifier may revoke, once;
    /// the nonce must match.  Revocation frees the dedup key, so an identical
    /// attestation may be added again, and lowers the subject's live count
    /// (never below zero); the subject's id list keeps the entry.
    pub fn revoke_attestation(&mut self, attester: u64, attestation_id: u64, nonce: u64) -> (r:
        Result<(), BondError>)
        requires
            old(self).wf(),
        ensures
            final(self).wf(),
            r == old(self).spec_revoke_attestation(attester, attestation_id, nonce),
            r is Err ==> Self::unchanged(old(self), final(self)),
            r is Ok ==> {
                let a = old(self).attestations@[attestation_id];
                &&& final(self).attestations@ == old(self).attestations@.insert(
                    attestation_id,
                    Attestation { revoked: true, ..a },
                )
                &&& final(self).nonces@ == old(self).nonces@.insert(attester, (nonce + 1) as u64)
                &&& final(self).dedup@ == old(self).dedup@.insert(a.spec_dedup_key(), false)
                &&& !final(self).spec_dedup_live(a.spec_dedup_key())
                &&& final(self).spec_subject_count(a.identity) == if old(self).spec_subject_count(
                    a.identity,
                ) == 0 {
                    0
                } else {
                    old(self).spec_subject_count(a.identity) - 1
                }
                &&& forall|s: u64|
                    s != a.identity ==> final(self).spec_subject_count(s) == old(
                        self,
                    ).spec_subject_count(s)
                &&& final(self).subject_lists@ == old(self).subject_lists@
                &&& final(self).attestation_counter == old(self).attestation_counter
                &&& final(self).attesters@ == old(self).attesters@
                &&& final(self).attester_stakes@ == old(self).attester_stakes@
                &&& final(self).weight_config == old(self).weight_config
                &&& Self::gov_unchanged(old(self), final(self))
                &&& Self::cfg_unchanged(old(self), final(self))
                &&& Self::bond_unchanged(old(self), final(self))
                &&& final(self).events@ == old(self).events@.push(
                    AuditEvent::AttestationRevoked {
                        subject: a.identity,
                        id: attestation_id,
                        attester,
                    },
                )
            },
    {
        let current = self.get_nonce(attester);
        if nonce != current {
            return Err(BondError::Replay);
        }
        if nonce == u64::MAX {
            return Err(BondError::Overflow);
        }
        let attestation = match self.attestations.get(attestation_id) {
            None => {
                return Err(BondError::AttestationNotFound);
            },
            Some(a) => *a,
        };
        if attestation.verifier != attester {
            return Err(BondError::NotVerifier);
        }
        if attestation.revoked {
            return Err(BondError::AlreadyRevoked);
        }
        self.nonces.set(attester, nonce + 1);
        let revoked = Attestation { revoked: true, ..attestation };
        self.attestations.set(attestation_id, revoked);
        let dedup_key = (attestation.verifier, attestation.identity, attestation.attestation_data);
        self.dedup.set(dedup_key, false);
        let count = match self.subject_counts.get(attestation.identity) {
            Some(c) => *c,
            None => 0,
        };
        let new_count = if count == 0 {
            0
        } else {
            count - 1
        };
        self.subject_counts.set(attestation.identity, new_count);
        self.events.push(
            AuditEvent::AttestationRevoked {
                subject: attestation.identity,
                id: attestation_id,
                attester,
            },
        );
        Ok(())
    }

    /// Looks an attestation up by id.
    pub fn get_attestation(&self, attestation_id: u64) -> (r: Result<Attestation, BondError>)
        requires
            self.wf(),
        ensures
            r == if self.attestations@.dom().contains(attestation_id) {
                Ok::<_, BondError>(self.attestations@[attestation_id])
            } else {
                Err::<Attestation, _>(BondError::AttestationNotFound)
            },
    {
        match self.attestations.get(attestation_id) {
            Some(a) => Ok(*a),
            None => Err(BondError::AttestationNotFound),
        }
    }

    /// The ordered attestation ids of a subject, revoked ones included.
    pub fn get_subject_attestations(&self, subject: u64) -> (r: Vec<u64>)
        requires
            self.wf(),
        ensures
            r@ == self.spec_subject_list(subject),
    {
        match self.subject_lists.get(subject) {
            Some(v) => copy_u64_vec(v),
            None => Vec::new(),
        }
    }

    /// The live-attestation count of a subject.
    pub fn get_subject_attestation_count(&self, subject: u64) -> (r: u32)
        requires
            self.wf(),
        ensures
            r == self.spec_subject_count(subject),
    {
        match self.subject_counts.get(subject) {
            Some(c) => *c,
            None => 0,
        }
    }
}

} // verus!
