//! Laws of the bond contract, stated and proved over the same spec functions
//! the entry points' contracts use.
//!
//! Reachability: `CredenceBond::new` ensures `wf`, and every entry point
//! requires `wf` of the state before and ensures it of the state after, so
//! every state a sequence of calls can reach is well-formed and these laws
//! apply to it.

use vstd::prelude::*;
use crate::governance_approval::{spec_count_approve, spec_count_voted};
use crate::state::CredenceBond;

verus! {

/// Law: after every call, the bond's slashed amount is between zero and the
/// bonded amount.  Well-formedness carries this invariant, and every entry
/// point preserves well-formedness, so it holds of every reachable state.
pub proof fn lemma_slashed_within_bonded(s: CredenceBond)
    requires
        s.wf(),
    ensures
        s.bond matches Some(b) ==> 0 <= b.slashed_amount <= b.bonded_amount,
{
}

/// Law: once the timing rule admits a withdrawal, `withdraw` succeeds exactly
/// when the requested amount does not exceed `bonded - slashed`, and on
/// success the bonded amount decreases by exactly that amount while the
/// slashed amount stays put.
pub proof fn lemma_withdraw_succeeds_iff(s: CredenceBond, now: u64, amount: i128)
    requires
        s.wf(),
        s.bond is Some,
        0 <= amount,
        ({
            let b = s.bond->0;
            if b.is_rolling {
                b.withdrawal_requested_at != 0
                    && crate::rolling_bond::spec_can_withdraw_after_notice(
                    now,
                    b.withdrawal_requested_at,
                    b.notice_period_duration,
                )
            } else {
                now >= crate::rolling_bond::sat_add(b.bond_start, b.bond_duration)
            }
        }),
    ensures
        s.spec_withdraw(now, amount) is Ok <==> amount <= s.bond->0.bonded_amount
            - s.bond->0.slashed_amount,
        s.spec_withdraw(now, amount) matches Ok(b2) ==> b2.bonded_amount == s.bond->0.bonded_amount
            - amount && b2.slashed_amount == s.bond->0.slashed_amount,
{
}

/// Law: a nonce value is consumable at most once.  A successful
/// `consume_nonce(identity, n)` (its ensures give exactly the hypotheses
/// below) leaves a state in which the stored nonce is `n + 1`, so a second
/// call with the same `n` mismatches and, by `consume_nonce`'s contract,
/// fails with the replay error.
pub proof fn lemma_nonce_single_use(s: CredenceBond, s2: CredenceBond, identity: u64, n: u64)
    requires
        n == s.spec_nonce_of(identity),
        n < u64::MAX,
        s2.nonces@ == s.nonces@.insert(identity, (n + 1) as u64),
    ensures
        n != s2.spec_nonce_of(identity),
{
    assert(s2.nonces@.dom().contains(identity));
}

/// Law: revoking an attestation frees its deduplication key, so re-adding an
/// attestation with the identical verifier, subject and payload succeeds.
/// `revoke_attestation`'s ensures provide the freed key; the remaining
/// hypotheses are the add-side conditions that do not concern the key: the
/// verifier is still authorized, the fresh nonce matches, and ids are not
/// exhausted.
pub proof fn lemma_revoke_then_readd(
    s2: CredenceBond,
    now: u64,
    attester: u64,
    subject: u64,
    attestation_data: u64,
    nonce: u64,
)
    requires
        !s2.spec_dedup_live((attester, subject, attestation_data)),
        s2.spec_is_attester(attester),
        nonce == s2.spec_nonce_of(attester),
        nonce < u64::MAX,
        s2.attestation_counter < u64::MAX,
    ensures
        s2.spec_add_attestation(now, attester, subject, attestation_data, nonce) is Ok,
{
}

/// The two vote counts change by the same non-negative number of governors
/// when a fresh approval is inserted.
proof fn lemma_counts_after_approve(
    governors: Seq<u64>,
    delegates: Map<u64, u64>,
    votes: Map<(u64, u64), bool>,
    proposal_id: u64,
    voter: u64,
)
    requires
        !votes.dom().contains((proposal_id, voter)),
    ensures
        ({
            let votes2 = votes.insert((proposal_id, voter), true);
            let dv = spec_count_voted(governors, delegates, votes2, proposal_id)
                - spec_count_voted(governors, delegates, votes, proposal_id);
            let da = spec_count_approve(governors, delegates, votes2, proposal_id)
                - spec_count_approve(governors, delegates, votes, proposal_id);
            dv == da && dv >= 0
        }),
    decreases governors.len(),
{
    if governors.len() > 0 {
        lemma_counts_after_approve(
            governors.drop_last(),
            delegates,
            votes,
            proposal_id,
            voter,
        );
    }
}

/// Law: adding an approval vote never takes a proposal from approved to not
/// approved.  The hypotheses are exactly what `governance_vote`'s ensures
/// give for a successful approval by a new effective voter.
pub proof fn lemma_approval_monotonic(
    s: CredenceBond,
    s2: CredenceBond,
    voter: u64,
    proposal_id: u64,
)
    requires
        s.spec_is_approved(proposal_id),
        !s.votes@.dom().contains((proposal_id, voter)),
        s2.votes@ == s.votes@.insert((proposal_id, voter), true),
        s2.governors == s.governors,
        s2.delegates@ == s.delegates@,
        s2.quorum_bps == s.quorum_bps,
        s2.min_governors == s.min_governors,
    ensures
        s2.spec_is_approved(proposal_id),
{
    lemma_counts_after_approve(
        s.spec_governors(),
        s.delegates@,
        s.votes@,
        proposal_id,
        voter,
    );
}

} // verus!
