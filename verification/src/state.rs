//! The bond contract state: one deployment's storage as a plain value.
//!
//! The host that embeds this state authenticates callers, persists the value
//! between invocations, performs token transfers and callback invocations,
//! and delivers the audit events; every rule about what the state may become
//! lives here, in verified code.  Each entry point takes the authenticated
//! caller and, where time matters, the current ledger timestamp as plain
//! arguments.  An entry point that returns an error leaves the state exactly
//! as it was: an invocation either commits whole or not at all.

use vstd::prelude::*;
use crate::events::AuditEvent;
use crate::kv::{KvMap, KvMap2, KvMap3};
use crate::types::{Attestation, IdentityBond, MAX_ATTESTATION_WEIGHT};
use crate::governance_approval::SlashProposal;

verus! {

/// Default weight multiplier in basis points, used when no config is set.
pub const DEFAULT_WEIGHT_MULTIPLIER_BPS: u32 = 100;

/// Default maximum attestation weight, used when no config is set.
pub const DEFAULT_MAX_WEIGHT: u32 = 100_000;

/// Copies a vector of identities.
pub fn copy_u64_vec(v: &Vec<u64>) -> (r: Vec<u64>)
    ensures
        r@ == v@,
{
    let n = v.len();
    let mut out: Vec<u64> = Vec::new();
    let mut i: usize = 0;
    while i < n
        invariant
            i <= n,
            n == v@.len(),
            out@ == v@.take(i as int),
        decreases n - i,
    {
        out.push(v[i]);
        proof {
            assert(out@ =~= v@.take(i as int + 1));
        }
        i = i + 1;
    }
    proof {
        assert(v@.take(n as int) =~= v@);
    }
    out
}

/// One deployment of the identity-bonding contract.
///
/// Exactly one bond record exists per deployment; a second `create_bond`
/// overwrites it.  The reentrancy lock is a plain persisted flag.
pub struct CredenceBond {
    /// The administrator identity, if initialized.
    pub admin: Option<u64>,
    /// The value-transfer collaborator the host should use, if set.
    pub token: Option<u64>,
    /// The registered callback collaborator, if set.
    pub callback: Option<u64>,
    /// The single bond record.
    pub bond: Option<IdentityBond>,
    /// The reentrancy lock.
    pub locked: bool,
    /// Accumulated protocol fees awaiting collection.
    pub fee_pool: i128,
    /// Treasury identity for bond-creation fees, if configured.
    pub fee_treasury: Option<u64>,
    /// Bond-creation fee rate in basis points (zero when not configured).
    pub fee_bps: u32,
    /// Early-exit configuration: treasury identity and penalty rate.
    pub early_exit: Option<(u64, u32)>,
    /// Weight configuration: multiplier in basis points and maximum weight.
    pub weight_config: Option<(u32, u32)>,
    /// Authorized attesters (false is the same as absent).
    pub attesters: KvMap<bool>,
    /// Configured attester stakes.
    pub attester_stakes: KvMap<i128>,
    /// Per-identity replay counters.
    pub nonces: KvMap<u64>,
    /// Next attestation id; ids are assigned sequentially from zero.
    pub attestation_counter: u64,
    /// All attestations ever added, by id.
    pub attestations: KvMap<Attestation>,
    /// Live deduplication keys (verifier, subject, payload); false is freed.
    pub dedup: KvMap3<bool>,
    /// Per-subject ordered list of attestation ids (revocation keeps entries).
    pub subject_lists: KvMap<Vec<u64>>,
    /// Per-subject count of live attestations, kept in lockstep.
    pub subject_counts: KvMap<u32>,
    /// Governor identities, once governance is initialized.
    pub governors: Option<Vec<u64>>,
    /// Quorum rate in basis points (5100 when unset).
    pub quorum_bps: Option<u32>,
    /// Minimum number of voters for quorum (1 when unset).
    pub min_governors: Option<u32>,
    /// Next slash-proposal id.
    pub next_proposal_id: u64,
    /// Slash proposals by id.
    pub proposals: KvMap<SlashProposal>,
    /// Votes by (proposal id, effective voter).
    pub votes: KvMap2<bool>,
    /// One-hop delegation: governor to delegate.
    pub delegates: KvMap<u64>,
    /// The append-only audit-event stream.
    pub events: Vec<AuditEvent>,
}

impl CredenceBond {
    /// Well-formedness: the bond invariant, capped rates, non-negative
    /// stakes, valid stored weights, ids below the counter, and the internal
    /// shape of every store.
    pub open spec fn wf(&self) -> bool {
        &&& match self.bond {
            Some(b) => b.wf(),
            None => true,
        }
        &&& self.fee_bps <= 10000
        &&& match self.early_exit {
            Some(cfg) => cfg.1 <= 10000,
            None => true,
        }
        &&& match self.weight_config {
            Some(wc) => wc.1 <= MAX_ATTESTATION_WEIGHT,
            None => true,
        }
        &&& match self.quorum_bps {
            Some(q) => q <= 10000,
            None => true,
        }
        &&& self.attesters.wf()
        &&& self.attester_stakes.wf()
        &&& forall|k: u64|
            self.attester_stakes@.dom().contains(k) ==> self.attester_stakes@[k] >= 0
        &&& self.nonces.wf()
        &&& self.attestations.wf()
        &&& forall|k: u64| #[trigger] self.attestations@.dom().contains(k)
            ==> k < self.attestation_counter && self.attestations@[k].id == k
            && Attestation::spec_weight_valid(self.attestations@[k].weight)
        &&& self.dedup.wf()
        &&& self.subject_lists.wf()
        &&& self.subject_counts.wf()
        &&& self.proposals.wf()
        &&& self.votes.wf()
        &&& self.delegates.wf()
    }

    /// The governance fields of the two states agree.
    pub open spec fn gov_unchanged(pre: &Self, post: &Self) -> bool {
        &&& post.governors == pre.governors
        &&& post.quorum_bps == pre.quorum_bps
        &&& post.min_governors == pre.min_governors
        &&& post.next_proposal_id == pre.next_proposal_id
        &&& post.proposals@ == pre.proposals@
        &&& post.votes@ == pre.votes@
        &&& post.delegates@ == pre.delegates@
    }

    /// The attestation-registry fields of the two states agree.
    pub open spec fn att_unchanged(pre: &Self, post: &Self) -> bool {
        &&& post.attesters@ == pre.attesters@
        &&& post.attester_stakes@ == pre.attester_stakes@
        &&& post.nonces@ == pre.nonces@
        &&& post.attestation_counter == pre.attestation_counter
        &&& post.attestations@ == pre.attestations@
        &&& post.dedup@ == pre.dedup@
        &&& post.subject_lists@ == pre.subject_lists@
        &&& post.subject_counts@ == pre.subject_counts@
        &&& post.weight_config == pre.weight_config
    }

    /// The configuration fields of the two states agree.
    pub open spec fn cfg_unchanged(pre: &Self, post: &Self) -> bool {
        &&& post.admin == pre.admin
        &&& post.token == pre.token
        &&& post.callback == pre.callback
        &&& post.fee_treasury == pre.fee_treasury
        &&& post.fee_bps == pre.fee_bps
        &&& post.early_exit == pre.early_exit
    }

    /// The bond, lock and fee pool of the two states agree.
    pub open spec fn bond_unchanged(pre: &Self, post: &Self) -> bool {
        &&& post.bond == pre.bond
        &&& post.locked == pre.locked
        &&& post.fee_pool == pre.fee_pool
    }

    /// Nothing observable changed, events included.
    pub open spec fn unchanged(pre: &Self, post: &Self) -> bool {
        &&& Self::gov_unchanged(pre, post)
        &&& Self::att_unchanged(pre, post)
        &&& Self::cfg_unchanged(pre, post)
        &&& Self::bond_unchanged(pre, post)
        &&& post.events@ == pre.events@
    }

    /// A fresh, uninitialized deployment.
    pub fn new() -> (r: Self)
        ensures
            r.wf(),
            r.admin is None,
            r.token is None,
            r.callback is None,
            r.bond is None,
            !r.locked,
            r.fee_pool == 0,
            r.fee_treasury is None,
            r.fee_bps == 0,
            r.early_exit is None,
            r.weight_config is None,
            r.attesters@ =~= Map::<u64, bool>::empty(),
            r.attester_stakes@ =~= Map::<u64, i128>::empty(),
            r.nonces@ =~= Map::<u64, u64>::empty(),
            r.attestation_counter == 0,
            r.attestations@ =~= Map::<u64, Attestation>::empty(),
            r.dedup@ =~= Map::<(u64, u64, u64), bool>::empty(),
            r.subject_lists@ =~= Map::<u64, Vec<u64>>::empty(),
            r.subject_counts@ =~= Map::<u64, u32>::empty(),
            r.governors is None,
            r.quorum_bps is None,
            r.min_governors is None,
            r.next_proposal_id == 0,
            r.proposals@ =~= Map::<u64, SlashProposal>::empty(),
            r.votes@ =~= Map::<(u64, u64), bool>::empty(),
            r.delegates@ =~= Map::<u64, u64>::empty(),
            r.events@ =~= Seq::<AuditEvent>::empty(),
    {
        CredenceBond {
            admin: None,
            token: None,
            callback: None,
            bond: None,
            locked: false,
            fee_pool: 0,
            fee_treasury: None,
            fee_bps: 0,
            early_exit: None,
            weight_config: None,
            attesters: KvMap::new(),
            attester_stakes: KvMap::new(),
            nonces: KvMap::new(),
            attestation_counter: 0,
            attestations: KvMap::new(),
            dedup: KvMap3::new(),
            subject_lists: KvMap::new(),
            subject_counts: KvMap::new(),
            governors: None,
            quorum_bps: None,
            min_governors: None,
            next_proposal_id: 0,
            proposals: KvMap::new(),
            votes: KvMap2::new(),
            delegates: KvMap::new(),
            events: Vec::new(),
        }
    }

    /// Initializes the contract, storing the admin.  Overwrites any prior
    /// admin: the deployment is single-tenant on purpose.
    pub fn initialize(&mut self, admin: u64)
        requires
            old(self).wf(),
        ensures
            final(self).wf(),
            final(self).admin == Some(admin),
            Self::gov_unchanged(old(self), final(self)),
            Self::att_unchanged(old(self), final(self)),
            Self::bond_unchanged(old(self), final(self)),
            final(self).token == old(self).token,
            final(self).callback == old(self).callback,
            final(self).fee_treasury == old(self).fee_treasury,
            final(self).fee_bps == old(self).fee_bps,
            final(self).early_exit == old(self).early_exit,
            final(self).events@ == old(self).events@,
    {
        self.admin = Some(admin);
    }

    /// Whether the caller is the stored admin; the error tells a missing
    /// admin apart from a mismatch.
    pub open spec fn spec_admin_check(&self, caller: u64) -> Result<(), crate::errors::BondError> {
        match self.admin {
            None => Err(crate::errors::BondError::NotInitialized),
            Some(a) => if a == caller {
                Ok(())
            } else {
                Err(crate::errors::BondError::NotAdmin)
            },
        }
    }

    /// Checks that the caller is the stored admin.
    pub fn require_admin(&self, caller: u64) -> (r: Result<(), crate::errors::BondError>)
        ensures
            r == self.spec_admin_check(caller),
    {
        match self.admin {
            None => Err(crate::errors::BondError::NotInitialized),
            Some(a) => if a == caller {
                Ok(())
            } else {
                Err(crate::errors::BondError::NotAdmin)
            },
        }
    }

    /// Whether the reentrancy lock is currently held.
    pub fn is_locked(&self) -> (r: bool)
        ensures
            r == self.locked,
    {
        self.locked
    }

    /// Stores the value-transfer collaborator's identity.  Admin only.
    pub fn set_token(&mut self, caller: u64, token: u64) -> (r: Result<
        (),
        crate::errors::BondError,
    >)
        requires
            old(self).wf(),
        ensures
            final(self).wf(),
            r == old(self).spec_admin_check(caller),
            r is Ok ==> final(self).token == Some(token),
            r is Err ==> Self::unchanged(old(self), final(self)),
            final(self).admin == old(self).admin,
            final(self).callback == old(self).callback,
            final(self).fee_treasury == old(self).fee_treasury,
            final(self).fee_bps == old(self).fee_bps,
            final(self).early_exit == old(self).early_exit,
            Self::gov_unchanged(old(self), final(self)),
            Self::att_unchanged(old(self), final(self)),
            Self::bond_unchanged(old(self), final(self)),
            final(self).events@ == old(self).events@,
    {
        match self.require_admin(caller) {
            Err(e) => Err(e),
            Ok(()) => {
                self.token = Some(token);
                Ok(())
            },
        }
    }

    /// Registers the callback collaborator invoked after guarded mutations.
    pub fn set_callback(&mut self, callback: u64)
        requires
            old(self).wf(),
        ensures
            final(self).wf(),
            final(self).callback == Some(callback),
            final(self).admin == old(self).admin,
            final(self).token == old(self).token,
            final(self).fee_treasury == old(self).fee_treasury,
            final(self).fee_bps == old(self).fee_bps,
            final(self).early_exit == old(self).early_exit,
            Self::gov_unchanged(old(self), final(self)),
            Self::att_unchanged(old(self), final(self)),
            Self::bond_unchanged(old(self), final(self)),
            final(self).events@ == old(self).events@,
    {
        self.callback = Some(callback);
    }

    /// Takes the reentrancy lock; fails if it is already held.
    pub fn acquire_lock(&mut self) -> (r: Result<(), crate::errors::BondError>)
        requires
            old(self).wf(),
        ensures
            final(self).wf(),
            r is Ok <==> !old(self).locked,
            r is Err ==> r == Err::<(), _>(crate::errors::BondError::Reentrancy)
                && Self::unchanged(old(self), final(self)),
            r is Ok ==> final(self).locked,
            Self::gov_unchanged(old(self), final(self)),
            Self::att_unchanged(old(self), final(self)),
            Self::cfg_unchanged(old(self), final(self)),
            final(self).bond == old(self).bond,
            final(self).fee_pool == old(self).fee_pool,
            final(self).events@ == old(self).events@,
    {
        if self.locked {
            Err(crate::errors::BondError::Reentrancy)
        } else {
            self.locked = true;
            Ok(())
        }
    }

    /// Releases the reentrancy lock.  The host calls this after performing
    /// the external callback an entry point handed back; it runs on every
    /// exit path, so the lock never survives past the outer invocation.
    pub fn release_lock(&mut self)
        requires
            old(self).wf(),
        ensures
            final(self).wf(),
            !final(self).locked,
            Self::gov_unchanged(old(self), final(self)),
            Self::att_unchanged(old(self), final(self)),
            Self::cfg_unchanged(old(self), final(self)),
            final(self).bond == old(self).bond,
            final(self).fee_pool == old(self).fee_pool,
            final(self).events@ == old(self).events@,
    {
        self.locked = false;
    }
}

} // verus!
