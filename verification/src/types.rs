//! Core data records: the bond, attestations, and their validity notions.
//!
//! Identities are plain numeric ids: the host maps platform addresses to ids
//! before calling in, and only equality of ids ever matters to the logic.
//! An attestation's payload is likewise an opaque numeric value compared only
//! for equality.

use vstd::prelude::*;

verus! {

/// Maximum allowed attestation weight (caps influence).
pub const MAX_ATTESTATION_WEIGHT: u32 = 1_000_000;

/// Weight used when the attester has no positive stake configured.
pub const DEFAULT_ATTESTATION_WEIGHT: u32 = 1;

/// The single collateral record of a deployment.
#[derive(Clone, Copy, Debug, PartialEq, Eq, Structural)]
pub struct IdentityBond {
    pub identity: u64,
    pub bonded_amount: i128,
    pub bond_start: u64,
    pub bond_duration: u64,
    pub slashed_amount: i128,
    pub active: bool,
    /// If true, the bond auto-renews at period end unless withdrawal was requested.
    pub is_rolling: bool,
    /// When withdrawal was requested (0 = not requested).
    pub withdrawal_requested_at: u64,
    /// Notice period duration for rolling bonds (seconds).
    pub notice_period_duration: u64,
}

impl IdentityBond {
    /// The bond accounting invariant: the slashed part never exceeds the
    /// bonded amount, and neither is negative.
    pub open spec fn wf(&self) -> bool {
        0 <= self.slashed_amount <= self.bonded_amount
    }
}

/// A verifier's credibility attestation about a subject identity.
#[derive(Clone, Copy, Debug, PartialEq, Eq, Structural)]
pub struct Attestation {
    pub id: u64,
    pub verifier: u64,
    pub identity: u64,
    pub timestamp: u64,
    pub weight: u32,
    pub attestation_data: u64,
    pub revoked: bool,
}

impl Attestation {
    /// Whether a weight is within the allowed bounds.
    pub open spec fn spec_weight_valid(weight: u32) -> bool {
        0 < weight <= MAX_ATTESTATION_WEIGHT
    }

    /// Checks that a weight is positive and within the protocol cap.
    pub fn validate_weight(weight: u32) -> (r: bool)
        ensures
            r == Self::spec_weight_valid(weight),
    {
        0 < weight && weight <= MAX_ATTESTATION_WEIGHT
    }

    /// Returns true if this attestation is currently active (not revoked).
    pub fn is_active(&self) -> (r: bool)
        ensures
            r == !self.revoked,
    {
        !self.revoked
    }

    /// The deduplication key of this attestation.
    pub open spec fn spec_dedup_key(&self) -> (u64, u64, u64) {
        (self.verifier, self.identity, self.attestation_data)
    }
}

/// Key that prevents duplicate live attestations: same verifier, subject,
/// and payload.
#[derive(Clone, Copy, Debug, PartialEq, Eq, Structural)]
pub struct AttestationDedupKey {
    pub verifier: u64,
    pub identity: u64,
    pub attestation_data: u64,
}

impl AttestationDedupKey {
    /// The key as a plain triple, as the registry stores it.
    pub open spec fn spec_triple(&self) -> (u64, u64, u64) {
        (self.verifier, self.identity, self.attestation_data)
    }

    /// Converts the key to the triple form used by the registry's store.
    pub fn triple(&self) -> (r: (u64, u64, u64))
        ensures
            r == self.spec_triple(),
    {
        (self.verifier, self.identity, self.attestation_data)
    }
}

} // verus!
