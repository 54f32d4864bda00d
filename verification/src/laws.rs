use vstd::prelude::*;
use vstd::arithmetic::div_mod::{lemma_div_is_ordered, lemma_div_multiples_vanish};
use vstd::arithmetic::mul::lemma_mul_inequality;
use crate::bandwidth::{
    is_duplicate_proof, proof_message_bytes, spec_validate_bandwidth_proof, spec_verify_dual,
    InstructionsSysvar,
};
use crate::digest::keccak_of;
use crate::errors::{BandwidthError, ProtocolError};
use crate::payments::spec_submit_bandwidth_proof;
use crate::reputation::{reputation_score_of, success_rate_of};
use crate::staking::spec_tier_for;
use crate::state::{tier_rank, BandwidthProof, Connection, ProtocolConfig, Seeker, Warden};
use crate::Pubkey;

verus! {

/// Tier assignment is monotonic in the stake's USD value: of two values that
/// both qualify, the larger never earns a lower tier, and a value at least as
/// large as a qualifying one still qualifies.
pub proof fn lemma_tier_monotonic(a: u64, b: u64, thresholds: [u64; 3])
    requires
        a <= b,
        spec_tier_for(a, thresholds) is Some,
    ensures
        spec_tier_for(b, thresholds) is Some,
        tier_rank(spec_tier_for(a, thresholds).unwrap()) <= tier_rank(
            spec_tier_for(b, thresholds).unwrap(),
        ),
{
}

/// A stake value exactly at a threshold earns exactly that threshold's tier,
/// as long as the thresholds ascend strictly (with two thresholds equal, the
/// higher tier wins at their shared value).
pub proof fn lemma_tier_exact_at_thresholds(thresholds: [u64; 3])
    requires
        thresholds[0] < thresholds[1],
        thresholds[1] < thresholds[2],
    ensures
        spec_tier_for(thresholds[0], thresholds) == Some(crate::state::Tier::Bronze),
        spec_tier_for(thresholds[1], thresholds) == Some(crate::state::Tier::Silver),
        spec_tier_for(thresholds[2], thresholds) == Some(crate::state::Tier::Gold),
{
}

/// The reputation score always lies in [0, 10000], whatever the counters, the
/// reported uptime, and the (non-negative) days of inactivity.
pub proof fn lemma_reputation_score_in_range(
    successful: u64,
    failed: u64,
    uptime_bps: u16,
    days_inactive: int,
)
    requires
        0 <= days_inactive,
    ensures
        0 <= reputation_score_of(successful, failed, uptime_bps, days_inactive),
        reputation_score_of(successful, failed, uptime_bps, days_inactive) <= 10000,
{
    if successful + failed > 0 {
        lemma_mul_inequality(successful as int, successful + failed, 10000);
        lemma_div_is_ordered(
            successful * 10000,
            (successful + failed) * 10000,
            successful + failed,
        );
        lemma_div_multiples_vanish(10000, successful + failed);
        assert((successful + failed) * 10000 == 10000 * (successful + failed));
        assert(0 <= success_rate_of(successful, failed) <= 10000);
    }
}

/// A brand-new Warden, with no recorded connection outcome, has a success-rate
/// component worth the component's full weight: 4000 of the 10000-point scale.
pub proof fn lemma_new_warden_success_component()
    ensures
        success_rate_of(0, 0) == 10000,
        (success_rate_of(0, 0) * 40) / 100 == 4000,
{
}

/// Escrow-bounded settlement: every accepted proof adds a non-negative payment
/// to the connection's paid total, and is refused outright where the new total
/// would breach the escrowed amount — so over any sequence of accepted proofs
/// the paid total never decreases and never exceeds the escrow.
pub proof fn lemma_paid_total_bounded_by_escrow(
    config: ProtocolConfig,
    connection_key: Pubkey,
    connection: Connection,
    warden: Warden,
    seeker: Seeker,
    sysvar: InstructionsSysvar,
    mb_consumed: u64,
    seeker_signature: [u8; 64],
    warden_signature: [u8; 64],
    now: i64,
)
    requires
        spec_submit_bandwidth_proof(
            config,
            connection_key,
            connection,
            warden,
            seeker,
            sysvar,
            mb_consumed,
            seeker_signature,
            warden_signature,
            now,
        ) is Ok,
    ensures
        connection.amount_paid + spec_submit_bandwidth_proof(
            config,
            connection_key,
            connection,
            warden,
            seeker,
            sysvar,
            mb_consumed,
            seeker_signature,
            warden_signature,
            now,
        ).unwrap().0 <= connection.amount_escrowed,
        spec_submit_bandwidth_proof(
            config,
            connection_key,
            connection,
            warden,
            seeker,
            sysvar,
            mb_consumed,
            seeker_signature,
            warden_signature,
            now,
        ).unwrap().0 >= 0,
{
}

/// Replay protection: a submitted proof byte-identical to one already in the
/// connection's recorded history is rejected (as an invalid signature), even
/// when it passes the range, freshness and dual-custody checks — which a proof
/// identical to an accepted one does.
pub proof fn lemma_duplicate_proof_rejected(
    config: ProtocolConfig,
    connection_key: Pubkey,
    connection: Connection,
    warden: Warden,
    seeker: Seeker,
    sysvar: InstructionsSysvar,
    mb_consumed: u64,
    seeker_signature: [u8; 64],
    warden_signature: [u8; 64],
    now: i64,
    i: int,
)
    requires
        0 <= i < connection.bandwidth_proofs@.len(),
        connection.bandwidth_proofs@[i] == (BandwidthProof {
            timestamp: now,
            mb_consumed,
            seeker_signature,
            warden_signature,
        }),
        spec_validate_bandwidth_proof(
            mb_consumed,
            now,
            now,
            seeker_signature@,
            warden_signature@,
        ) is Ok,
        spec_verify_dual(
            sysvar,
            keccak_of(proof_message_bytes(connection_key@, mb_consumed, now)),
            seeker_signature@,
            seeker.authority@,
            warden_signature@,
            warden.authority@,
        ) is Ok,
    ensures
        spec_submit_bandwidth_proof(
            config,
            connection_key,
            connection,
            warden,
            seeker,
            sysvar,
            mb_consumed,
            seeker_signature,
            warden_signature,
            now,
        ) == Err::<(u64, u64, bool), ProtocolError>(
            ProtocolError::Bandwidth(BandwidthError::InvalidSignature),
        ),
{
    let proof = BandwidthProof { timestamp: now, mb_consumed, seeker_signature, warden_signature };
    assert(is_duplicate_proof(connection_key@, connection.bandwidth_proofs@, proof)) by {
        assert(connection.bandwidth_proofs@[i] == proof);
    }
}

} // verus!
