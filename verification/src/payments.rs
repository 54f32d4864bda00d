use vstd::prelude::*;
use vstd::arithmetic::mul::lemma_mul_upper_bound;
use crate::bandwidth::{
    bandwidth_window, calculate_expected_bandwidth, create_proof_message, detect_bandwidth_anomaly,
    expected_bandwidth, hash_bandwidth_proof, history_mb, is_duplicate_proof,
    lemma_sum_seq_le_10000, proof_message_bytes, spec_bandwidth_anomaly, spec_proof_hash,
    spec_validate_bandwidth_proof, spec_verify_dual, validate_bandwidth_proof,
    verify_dual_signatures, InstructionsSysvar,
};
use crate::bytes::{all_zero, bytes_all_zero, bytes_eq};
use crate::digest::keccak_of;
use crate::errors::{ArkhamErrorCode, BandwidthError, ProtocolError};
use crate::state::{BandwidthProof, Connection, GeoPremium, ProtocolConfig, Seeker, Tier, Warden};
use crate::Pubkey;

verus! {

/// Reports a deposit into a Seeker's escrow.
#[derive(Clone, Copy, Debug, PartialEq, Eq)]
pub struct EscrowDeposited {
    pub authority: Pubkey,
    pub amount: u64,
    pub use_private: bool,
}

/// Reports a newly started connection and its snapshotted terms.
#[derive(Clone, Copy, Debug, PartialEq, Eq)]
pub struct ConnectionStarted {
    pub seeker: Pubkey,
    pub warden: Pubkey,
    pub estimated_mb: u64,
    pub rate_per_mb: u64,
    pub escrow_amount: u64,
}

/// Reports one accepted proof and the amounts it settled.
#[derive(Clone, Copy, Debug, PartialEq, Eq)]
pub struct BandwidthProofSubmitted {
    pub connection: Pubkey,
    pub mb_consumed: u64,
    pub payment_amount: u64,
    pub arkham_earned: u64,
}

/// Reports a finished connection, its totals, and the refunded escrow.
#[derive(Clone, Copy, Debug, PartialEq, Eq)]
pub struct ConnectionEnded {
    pub seeker: Pubkey,
    pub warden: Pubkey,
    pub bandwidth_consumed: u64,
    pub total_paid: u64,
    pub refunded: u64,
}

/// Reports claimed pending earnings.
#[derive(Clone, Copy, Debug, PartialEq, Eq)]
pub struct EarningsClaimed {
    pub authority: Pubkey,
    pub amount: u64,
    pub use_private: bool,
}

/// Reports claimed reward tokens.
#[derive(Clone, Copy, Debug, PartialEq, Eq)]
pub struct TokensClaimed {
    pub authority: Pubkey,
    pub amount: u64,
}

/// Credits a deposit to the Seeker's escrow after the caller's external
/// transfer succeeded; private deposits are not offered, and an overflowing
/// balance rejects the deposit unchanged.
pub fn deposit_escrow_handler(seeker: &mut Seeker, amount: u64, use_private: bool) -> (r: Result<
    (),
    ArkhamErrorCode,
>)
    ensures
        use_private ==> r == Err::<(), ArkhamErrorCode>(
            ArkhamErrorCode::PrivatePaymentsNotImplemented,
        ),
        !use_private && old(seeker).escrow_balance + amount > u64::MAX ==> r == Err::<
            (),
            ArkhamErrorCode,
        >(ArkhamErrorCode::ArithmeticOverflow),
        r matches Err(_) ==> *final(seeker) == *old(seeker),
        !use_private && old(seeker).escrow_balance + amount <= u64::MAX ==> r == Ok::<
            (),
            ArkhamErrorCode,
        >(()) && *final(seeker) == (Seeker {
            escrow_balance: (old(seeker).escrow_balance + amount) as u64,
            ..*old(seeker)
        }),
{
    if use_private {
        return Err(ArkhamErrorCode::PrivatePaymentsNotImplemented);
    }
    let new_balance = match seeker.escrow_balance.checked_add(amount) {
        Some(b) => b,
        None => {
            return Err(ArkhamErrorCode::ArithmeticOverflow);
        },
    };
    seeker.escrow_balance = new_balance;
    Ok(())
}

/// The geographic premium for a region: the premium of the first table entry
/// with that region code, or zero when none matches.
pub open spec fn geo_premium_for(premiums: Seq<GeoPremium>, region_code: u8) -> u16
    decreases premiums.len(),
{
    if premiums.len() == 0 {
        0
    } else if premiums[0].region_code == region_code {
        premiums[0].premium_bps
    } else {
        geo_premium_for(premiums.drop_first(), region_code)
    }
}

/// Looks a region's premium up in the configured table; absent regions carry
/// no premium.
pub fn lookup_geo_premium(premiums: &Vec<GeoPremium>, region_code: u8) -> (r: u16)
    ensures
        r == geo_premium_for(premiums@, region_code),
{
    assert(premiums@.skip(0) =~= premiums@);
    let mut i: usize = 0;
    while i < premiums.len()
        invariant
            0 <= i <= premiums@.len(),
            geo_premium_for(premiums@, region_code) == geo_premium_for(
                premiums@.skip(i as int),
                region_code,
            ),
        decreases premiums@.len() - i,
    {
        proof {
            assert(premiums@.skip(i as int)[0] == premiums@[i as int]);
            assert(premiums@.skip(i as int).drop_first() =~= premiums@.skip(i as int + 1));
        }
        if premiums[i].region_code == region_code {
            return premiums[i].premium_bps;
        }
        i += 1;
    }
    0
}

/// The payout multiplier the configuration assigns to a tier.
pub open spec fn tier_multiplier_of(config: ProtocolConfig, tier: Tier) -> u16 {
    match tier {
        Tier::Bronze => config.tier_multipliers[0],
        Tier::Silver => config.tier_multipliers[1],
        Tier::Gold => config.tier_multipliers[2],
    }
}

/// The terms of a new connection, or why it is refused: the effective rate is
/// the base rate raised by the region's premium and the tier's multiplier
/// (flooring at each step); the escrow to reserve is the estimated cost plus a
/// ten-percent buffer (flooring); any value beyond the 64-bit range is fatal,
/// a balance below the reservation is refused, and both parties must have room
/// for one more active connection. On success: the rate, the multiplier, and
/// the escrow to reserve.
pub open spec fn spec_start_connection(
    config: ProtocolConfig,
    seeker: Seeker,
    warden: Warden,
    estimated_mb: u64,
) -> Result<(u64, u16, u64), ArkhamErrorCode> {
    let geo_bps = geo_premium_for(config.geo_premiums@, warden.region_code);
    let multiplier = tier_multiplier_of(config, warden.tier);
    let rate_with_geo = (config.base_rate_per_mb * (10000 + geo_bps)) / 10000;
    if rate_with_geo > u64::MAX {
        Err(ArkhamErrorCode::ArithmeticOverflow)
    } else {
        let rate_per_mb = (rate_with_geo * multiplier) / 10000;
        if rate_per_mb > u64::MAX {
            Err(ArkhamErrorCode::ArithmeticOverflow)
        } else {
            let base_escrow = estimated_mb * rate_per_mb;
            if base_escrow > u64::MAX {
                Err(ArkhamErrorCode::ArithmeticOverflow)
            } else {
                let escrow_needed = (base_escrow * 11000) / 10000;
                if escrow_needed > u64::MAX {
                    Err(ArkhamErrorCode::ArithmeticOverflow)
                } else if seeker.escrow_balance < escrow_needed {
                    Err(ArkhamErrorCode::InsufficientEscrow)
                } else if seeker.active_connections + 1 > u8::MAX {
                    Err(ArkhamErrorCode::ArithmeticOverflow)
                } else if warden.active_connections + 1 > u8::MAX {
                    Err(ArkhamErrorCode::ArithmeticOverflow)
                } else {
                    Ok((rate_per_mb as u64, multiplier, escrow_needed as u64))
                }
            }
        }
    }
}

/// Opens a connection: prices the session from the configuration and the
/// Warden's region and tier, reserves the needed escrow out of the Seeker's
/// balance, and counts the connection active on both parties. On failure
/// neither record changes.
pub fn start_connection_handler(
    config: &ProtocolConfig,
    seeker_key: &Pubkey,
    warden_key: &Pubkey,
    seeker: &mut Seeker,
    warden: &mut Warden,
    estimated_mb: u64,
    now: i64,
) -> (r: Result<Connection, ArkhamErrorCode>)
    ensures
        spec_start_connection(*config, *old(seeker), *old(warden), estimated_mb) matches Err(e)
            ==> r == Err::<Connection, ArkhamErrorCode>(e) && *final(seeker) == *old(seeker)
            && *final(warden) == *old(warden),
        spec_start_connection(*config, *old(seeker), *old(warden), estimated_mb) matches Ok(terms)
            ==> {
            &&& r matches Ok(c)
            &&& c.seeker == *seeker_key
            &&& c.warden == *warden_key
            &&& c.started_at == now
            &&& c.last_proof_at == now
            &&& c.bandwidth_consumed == 0
            &&& c.bandwidth_proofs@ == Seq::<BandwidthProof>::empty()
            &&& c.amount_escrowed == terms.2
            &&& c.amount_paid == 0
            &&& c.rate_per_mb == terms.0
            &&& c.warden_multiplier == terms.1
            &&& c.wf()
            &&& *final(seeker) == (Seeker {
                escrow_balance: (old(seeker).escrow_balance - terms.2) as u64,
                active_connections: (old(seeker).active_connections + 1) as u8,
                ..*old(seeker)
            })
            &&& *final(warden) == (Warden {
                active_connections: (old(warden).active_connections + 1) as u8,
                ..*old(warden)
            })
        },
{
    let geo_bps = lookup_geo_premium(&config.geo_premiums, warden.region_code);
    let multiplier: u16 = match warden.tier {
        Tier::Bronze => config.tier_multipliers[0],
        Tier::Silver => config.tier_multipliers[1],
        Tier::Gold => config.tier_multipliers[2],
    };
    proof {
        lemma_mul_upper_bound(
            config.base_rate_per_mb as int,
            u64::MAX as int,
            (10000 + geo_bps) as int,
            75535,
        );
    }
    let rate_with_geo_wide: u128 = (config.base_rate_per_mb as u128) * ((10000 + geo_bps as u64)
        as u128) / 10000;
    if rate_with_geo_wide > u64::MAX as u128 {
        return Err(ArkhamErrorCode::ArithmeticOverflow);
    }
    let rate_with_geo = rate_with_geo_wide as u64;
    proof {
        lemma_mul_upper_bound(rate_with_geo as int, u64::MAX as int, multiplier as int, 65535);
    }
    let rate_per_mb_wide: u128 = (rate_with_geo as u128) * (multiplier as u128) / 10000;
    if rate_per_mb_wide > u64::MAX as u128 {
        return Err(ArkhamErrorCode::ArithmeticOverflow);
    }
    let rate_per_mb = rate_per_mb_wide as u64;
    proof {
        lemma_mul_upper_bound(
            estimated_mb as int,
            u64::MAX as int,
            rate_per_mb as int,
            u64::MAX as int,
        );
    }
    let base_escrow_wide: u128 = (estimated_mb as u128) * (rate_per_mb as u128);
    if base_escrow_wide > u64::MAX as u128 {
        return Err(ArkhamErrorCode::ArithmeticOverflow);
    }
    let base_escrow = base_escrow_wide as u64;
    proof {
        lemma_mul_upper_bound(base_escrow as int, u64::MAX as int, 11000, 11000);
    }
    let escrow_needed_wide: u128 = (base_escrow as u128) * 11000 / 10000;
    if escrow_needed_wide > u64::MAX as u128 {
        return Err(ArkhamErrorCode::ArithmeticOverflow);
    }
    let escrow_needed = escrow_needed_wide as u64;
    if seeker.escrow_balance < escrow_needed {
        return Err(ArkhamErrorCode::InsufficientEscrow);
    }
    let new_seeker_active = match seeker.active_connections.checked_add(1) {
        Some(v) => v,
        None => {
            return Err(ArkhamErrorCode::ArithmeticOverflow);
        },
    };
    let new_warden_active = match warden.active_connections.checked_add(1) {
        Some(v) => v,
        None => {
            return Err(ArkhamErrorCode::ArithmeticOverflow);
        },
    };
    seeker.escrow_balance = seeker.escrow_balance - escrow_needed;
    seeker.active_connections = new_seeker_active;
    warden.active_connections = new_warden_active;
    Ok(
        Connection {
            seeker: *seeker_key,
            warden: *warden_key,
            started_at: now,
            last_proof_at: now,
            bandwidth_consumed: 0,
            bandwidth_proofs: Vec::new(),
            amount_escrowed: escrow_needed,
            amount_paid: 0,
            rate_per_mb,
            warden_multiplier: multiplier,
        },
    )
}

/// Returns true when one recorded proof's replay-detection hash matches the
/// hash of the submitted proof.
fn existing_hash_matches(
    connection_key: &Pubkey,
    new_hash: &Vec<u8>,
    existing: &BandwidthProof,
) -> (r: bool)
    ensures
        r == (spec_proof_hash(connection_key@, *existing) == new_hash@),
{
    let existing_hash = hash_bandwidth_proof(
        connection_key,
        existing.mb_consumed,
        existing.timestamp,
        &existing.seeker_signature,
        &existing.warden_signature,
    );
    bytes_eq(existing_hash.as_slice(), new_hash.as_slice())
}

/// Scans the recorded history for a proof whose replay-detection hash matches
/// the submitted proof's hash.
fn find_duplicate(
    connection_key: &Pubkey,
    history: &Vec<BandwidthProof>,
    new_hash: &Vec<u8>,
    Ghost(new_proof): Ghost<BandwidthProof>,
) -> (r: bool)
    requires
        new_hash@ == spec_proof_hash(connection_key@, new_proof),
    ensures
        r == is_duplicate_proof(connection_key@, history@, new_proof),
{
    let mut i: usize = 0;
    while i < history.len()
        invariant
            0 <= i <= history@.len(),
            new_hash@ == spec_proof_hash(connection_key@, new_proof),
            forall|j: int|
                0 <= j < i ==> spec_proof_hash(connection_key@, history@[j]) != spec_proof_hash(
                    connection_key@,
                    new_proof,
                ),
        decreases history@.len() - i,
    {
        let existing = &history[i];
        if existing_hash_matches(connection_key, new_hash, existing) {
            return true;
        }
        i += 1;
    }
    false
}

/// One submitted proof's settlement, or the first reason it is refused: the
/// range, freshness and signature-presence policy; then the dual-custody check
/// against the transaction's Ed25519 instructions; then replay protection over
/// the recorded history (a replay is rejected as an invalid signature); then
/// the payment arithmetic, every accumulation checked against the 64-bit
/// range, with the connection's escrow a hard stop. On success: the payment
/// (megabytes times the snapshotted rate), the reward tokens (megabytes times
/// the per-megabyte reward), and the advisory anomaly flag (at least three
/// recorded proofs and a claim more than three times their recent mean).
pub open spec fn spec_submit_bandwidth_proof(
    config: ProtocolConfig,
    connection_key: Pubkey,
    connection: Connection,
    warden: Warden,
    seeker: Seeker,
    sysvar: InstructionsSysvar,
    mb_consumed: u64,
    seeker_signature: [u8; 64],
    warden_signature: [u8; 64],
    now: i64,
) -> Result<(u64, u64, bool), ProtocolError> {
    match spec_validate_bandwidth_proof(
        mb_consumed,
        now,
        now,
        seeker_signature@,
        warden_signature@,
    ) {
        Err(e) => Err(ProtocolError::Bandwidth(e)),
        Ok(()) => {
            let message = keccak_of(proof_message_bytes(connection_key@, mb_consumed, now));
            match spec_verify_dual(
                sysvar,
                message,
                seeker_signature@,
                seeker.authority@,
                warden_signature@,
                warden.authority@,
            ) {
                Err(e) => Err(ProtocolError::Bandwidth(e)),
                Ok(()) => {
                    let proof = BandwidthProof {
                        timestamp: now,
                        mb_consumed,
                        seeker_signature,
                        warden_signature,
                    };
                    if is_duplicate_proof(connection_key@, connection.bandwidth_proofs@, proof) {
                        Err(ProtocolError::Bandwidth(BandwidthError::InvalidSignature))
                    } else {
                        let anomalous = connection.bandwidth_proofs@.len() >= 3
                            && spec_bandwidth_anomaly(
                            mb_consumed,
                            expected_bandwidth(history_mb(connection.bandwidth_proofs@), 5) as u64,
                            3,
                        );
                        let payment = mb_consumed * connection.rate_per_mb;
                        if payment > u64::MAX {
                            Err(ProtocolError::Arkham(ArkhamErrorCode::ArithmeticOverflow))
                        } else if connection.amount_paid + payment > u64::MAX {
                            Err(ProtocolError::Arkham(ArkhamErrorCode::ArithmeticOverflow))
                        } else if connection.amount_paid + payment > connection.amount_escrowed {
                            Err(
                                ProtocolError::Arkham(
                                    ArkhamErrorCode::InsufficientConnectionEscrow,
                                ),
                            )
                        } else if warden.pending_claims + payment > u64::MAX {
                            Err(ProtocolError::Arkham(ArkhamErrorCode::ArithmeticOverflow))
                        } else if connection.bandwidth_consumed + mb_consumed > u64::MAX {
                            Err(ProtocolError::Arkham(ArkhamErrorCode::ArithmeticOverflow))
                        } else if warden.total_bandwidth_served + mb_consumed > u64::MAX {
                            Err(ProtocolError::Arkham(ArkhamErrorCode::ArithmeticOverflow))
                        } else if warden.total_earnings + payment > u64::MAX {
                            Err(ProtocolError::Arkham(ArkhamErrorCode::ArithmeticOverflow))
                        } else {
                            let reward = mb_consumed * (config.tokens_per_5gb / 5120);
                            if reward > u64::MAX {
                                Err(ProtocolError::Arkham(ArkhamErrorCode::ArithmeticOverflow))
                            } else if warden.arkham_tokens_earned + reward > u64::MAX {
                                Err(ProtocolError::Arkham(ArkhamErrorCode::ArithmeticOverflow))
                            } else {
                                Ok((payment as u64, reward as u64, anomalous))
                            }
                        }
                    }
                },
            }
        },
    }
}

/// Settles one dual-signed bandwidth proof against the connection: verifies
/// policy, custody and novelty, pays the Warden out of the connection's
/// escrow, accrues the usage statistics and reward tokens, and records the
/// proof in the bounded history, evicting the oldest entry at capacity ten.
/// All effects commit together or not at all.
#[verifier::rlimit(60)]
pub fn submit_bandwidth_proof_handler(
    config: &ProtocolConfig,
    connection_key: &Pubkey,
    connection: &mut Connection,
    warden: &mut Warden,
    seeker: &Seeker,
    instructions_sysvar: &InstructionsSysvar,
    mb_consumed: u64,
    seeker_signature: [u8; 64],
    warden_signature: [u8; 64],
    now: i64,
) -> (r: Result<(BandwidthProofSubmitted, bool), ProtocolError>)
    requires
        old(connection).wf(),
        old(warden).wf(),
        0 <= now,
    ensures
        spec_submit_bandwidth_proof(
            *config,
            *connection_key,
            *old(connection),
            *old(warden),
            *seeker,
            *instructions_sysvar,
            mb_consumed,
            seeker_signature,
            warden_signature,
            now,
        ) matches Err(e) ==> r == Err::<(BandwidthProofSubmitted, bool), ProtocolError>(e)
            && *final(connection) == *old(connection) && *final(warden) == *old(warden),
        spec_submit_bandwidth_proof(
            *config,
            *connection_key,
            *old(connection),
            *old(warden),
            *seeker,
            *instructions_sysvar,
            mb_consumed,
            seeker_signature,
            warden_signature,
            now,
        ) matches Ok(outcome) ==> {
            &&& r == Ok::<(BandwidthProofSubmitted, bool), ProtocolError>(
                (
                    (BandwidthProofSubmitted {
                        connection: *connection_key,
                        mb_consumed,
                        payment_amount: outcome.0,
                        arkham_earned: outcome.1,
                    }),
                    outcome.2,
                ),
            )
            &&& *final(warden) == (Warden {
                pending_claims: (old(warden).pending_claims + outcome.0) as u64,
                total_bandwidth_served: (old(warden).total_bandwidth_served + mb_consumed) as u64,
                total_earnings: (old(warden).total_earnings + outcome.0) as u64,
                arkham_tokens_earned: (old(warden).arkham_tokens_earned + outcome.1) as u64,
                last_active: now,
                ..*old(warden)
            })
            &&& final(connection).bandwidth_consumed == old(connection).bandwidth_consumed
                + mb_consumed
            &&& final(connection).amount_paid == old(connection).amount_paid + outcome.0
            &&& final(connection).last_proof_at == now
            &&& final(connection).seeker == old(connection).seeker
            &&& final(connection).warden == old(connection).warden
            &&& final(connection).started_at == old(connection).started_at
            &&& final(connection).amount_escrowed == old(connection).amount_escrowed
            &&& final(connection).rate_per_mb == old(connection).rate_per_mb
            &&& final(connection).warden_multiplier == old(connection).warden_multiplier
            &&& final(connection).bandwidth_proofs@ == (if old(
                connection,
            ).bandwidth_proofs@.len() >= 10 {
                old(connection).bandwidth_proofs@.drop_first().push(
                    (BandwidthProof {
                        timestamp: now,
                        mb_consumed,
                        seeker_signature,
                        warden_signature,
                    }),
                )
            } else {
                old(connection).bandwidth_proofs@.push(
                    (BandwidthProof {
                        timestamp: now,
                        mb_consumed,
                        seeker_signature,
                        warden_signature,
                    }),
                )
            })
        },
        final(connection).amount_paid >= old(connection).amount_paid,
        final(connection).wf(),
        final(warden).wf(),
{
    match validate_bandwidth_proof(mb_consumed, now, now, &seeker_signature, &warden_signature) {
        Err(e) => {
            return Err(ProtocolError::Bandwidth(e));
        },
        Ok(()) => {},
    }
    let proof_message = create_proof_message(connection_key, mb_consumed, now);
    match verify_dual_signatures(
        instructions_sysvar,
        proof_message.as_slice(),
        &seeker_signature,
        &seeker.authority,
        &warden_signature,
        &warden.authority,
    ) {
        Err(e) => {
            return Err(ProtocolError::Bandwidth(e));
        },
        Ok(()) => {},
    }
    let ghost new_proof = BandwidthProof {
        timestamp: now,
        mb_consumed,
        seeker_signature,
        warden_signature,
    };
    let proof_hash = hash_bandwidth_proof(
        connection_key,
        mb_consumed,
        now,
        &seeker_signature,
        &warden_signature,
    );
    if find_duplicate(connection_key, &connection.bandwidth_proofs, &proof_hash, Ghost(new_proof)) {
        return Err(ProtocolError::Bandwidth(BandwidthError::InvalidSignature));
    }
    let mut anomalous = false;
    if connection.bandwidth_proofs.len() >= 3 {
        let mut historical: Vec<u64> = Vec::new();
        let mut k: usize = 0;
        while k < connection.bandwidth_proofs.len()
            invariant
                0 <= k <= connection.bandwidth_proofs@.len(),
                historical@.len() == k,
                forall|j: int|
                    0 <= j < k ==> historical@[j] == connection.bandwidth_proofs@[j].mb_consumed,
            decreases connection.bandwidth_proofs@.len() - k,
        {
            let mb = connection.bandwidth_proofs[k].mb_consumed;
            historical.push(mb);
            k += 1;
        }
        assert(historical@ =~= history_mb(connection.bandwidth_proofs@));
        proof {
            let window = bandwidth_window(historical@, 5);
            assert(forall|j: int| 0 <= j < window.len() ==> window[j] <= 10000);
            lemma_sum_seq_le_10000(window);
        }
        let expected = calculate_expected_bandwidth(historical.as_slice(), 5);
        anomalous = detect_bandwidth_anomaly(mb_consumed, expected, 3);
    }
    proof {
        lemma_mul_upper_bound(
            mb_consumed as int,
            u64::MAX as int,
            connection.rate_per_mb as int,
            u64::MAX as int,
        );
    }
    let payment_wide: u128 = (mb_consumed as u128) * (connection.rate_per_mb as u128);
    if payment_wide > u64::MAX as u128 {
        return Err(ProtocolError::Arkham(ArkhamErrorCode::ArithmeticOverflow));
    }
    let payment_amount = payment_wide as u64;
    let new_total_paid = match connection.amount_paid.checked_add(payment_amount) {
        Some(v) => v,
        None => {
            return Err(ProtocolError::Arkham(ArkhamErrorCode::ArithmeticOverflow));
        },
    };
    if new_total_paid > connection.amount_escrowed {
        return Err(ProtocolError::Arkham(ArkhamErrorCode::InsufficientConnectionEscrow));
    }
    let new_pending = match warden.pending_claims.checked_add(payment_amount) {
        Some(v) => v,
        None => {
            return Err(ProtocolError::Arkham(ArkhamErrorCode::ArithmeticOverflow));
        },
    };
    let new_bandwidth = match connection.bandwidth_consumed.checked_add(mb_consumed) {
        Some(v) => v,
        None => {
            return Err(ProtocolError::Arkham(ArkhamErrorCode::ArithmeticOverflow));
        },
    };
    let new_served = match warden.total_bandwidth_served.checked_add(mb_consumed) {
        Some(v) => v,
        None => {
            return Err(ProtocolError::Arkham(ArkhamErrorCode::ArithmeticOverflow));
        },
    };
    let new_earnings = match warden.total_earnings.checked_add(payment_amount) {
        Some(v) => v,
        None => {
            return Err(ProtocolError::Arkham(ArkhamErrorCode::ArithmeticOverflow));
        },
    };
    let tokens_per_mb = config.tokens_per_5gb / 5120;
    proof {
        lemma_mul_upper_bound(
            mb_consumed as int,
            u64::MAX as int,
            tokens_per_mb as int,
            u64::MAX as int,
        );
    }
    let reward_wide: u128 = (mb_consumed as u128) * (tokens_per_mb as u128);
    if reward_wide > u64::MAX as u128 {
        return Err(ProtocolError::Arkham(ArkhamErrorCode::ArithmeticOverflow));
    }
    let arkham_earned = reward_wide as u64;
    let new_tokens = match warden.arkham_tokens_earned.checked_add(arkham_earned) {
        Some(v) => v,
        None => {
            return Err(ProtocolError::Arkham(ArkhamErrorCode::ArithmeticOverflow));
        },
    };
    warden.pending_claims = new_pending;
    connection.bandwidth_consumed = new_bandwidth;
    connection.amount_paid = new_total_paid;
    warden.total_bandwidth_served = new_served;
    warden.total_earnings = new_earnings;
    warden.arkham_tokens_earned = new_tokens;
    let ghost history_before_push = connection.bandwidth_proofs@;
    if connection.bandwidth_proofs.len() >= 10 {
        connection.bandwidth_proofs.remove(0);
        proof {
            assert(connection.bandwidth_proofs@ =~= history_before_push.drop_first());
        }
    }
    connection.bandwidth_proofs.push(
        BandwidthProof { timestamp: now, mb_consumed, seeker_signature, warden_signature },
    );
    connection.last_proof_at = now;
    warden.last_active = now;
    Ok(
        (
            BandwidthProofSubmitted {
                connection: *connection_key,
                mb_consumed,
                payment_amount,
                arkham_earned,
            },
            anomalous,
        ),
    )
}

/// Closes a connection: the unused escrow is exactly the escrowed amount less
/// what was paid, and it returns in full to the Seeker; the Warden is credited
/// one successful connection; both parties' active-connection counts drop by
/// one; the Seeker's lifetime totals absorb the session. On failure neither
/// record changes, and the Connection record is only destroyed on success.
pub open spec fn spec_end_connection(connection: Connection, seeker: Seeker, warden: Warden) -> Result<
    ConnectionEnded,
    ArkhamErrorCode,
> {
    let unused = connection.amount_escrowed - connection.amount_paid;
    if seeker.escrow_balance + unused > u64::MAX {
        Err(ArkhamErrorCode::ArithmeticOverflow)
    } else if warden.successful_connections + 1 > u64::MAX {
        Err(ArkhamErrorCode::ArithmeticOverflow)
    } else if seeker.active_connections == 0 {
        Err(ArkhamErrorCode::ArithmeticOverflow)
    } else if warden.active_connections == 0 {
        Err(ArkhamErrorCode::ArithmeticOverflow)
    } else if seeker.total_bandwidth_consumed + connection.bandwidth_consumed > u64::MAX {
        Err(ArkhamErrorCode::ArithmeticOverflow)
    } else if seeker.total_spent + connection.amount_paid > u64::MAX {
        Err(ArkhamErrorCode::ArithmeticOverflow)
    } else {
        Ok(
            (ConnectionEnded {
                seeker: connection.seeker,
                warden: connection.warden,
                bandwidth_consumed: connection.bandwidth_consumed,
                total_paid: connection.amount_paid,
                refunded: unused as u64,
            }),
        )
    }
}

/// Ends a connection and settles the final amounts: refunds the unused escrow
/// to the Seeker, credits the Warden's success counter, releases one active
/// connection on each side, and accrues the Seeker's lifetime totals. The
/// caller destroys the Connection record on success.
pub fn end_connection_handler(
    connection: &Connection,
    seeker: &mut Seeker,
    warden: &mut Warden,
) -> (r: Result<ConnectionEnded, ArkhamErrorCode>)
    requires
        connection.wf(),
    ensures
        spec_end_connection(*connection, *old(seeker), *old(warden)) matches Err(e) ==> r == Err::<
            ConnectionEnded,
            ArkhamErrorCode,
        >(e) && *final(seeker) == *old(seeker) && *final(warden) == *old(warden),
        spec_end_connection(*connection, *old(seeker), *old(warden)) matches Ok(ev) ==> {
            &&& r == Ok::<ConnectionEnded, ArkhamErrorCode>(ev)
            &&& *final(seeker) == (Seeker {
                escrow_balance: (old(seeker).escrow_balance + connection.amount_escrowed
                    - connection.amount_paid) as u64,
                active_connections: (old(seeker).active_connections - 1) as u8,
                total_bandwidth_consumed: (old(seeker).total_bandwidth_consumed
                    + connection.bandwidth_consumed) as u64,
                total_spent: (old(seeker).total_spent + connection.amount_paid) as u64,
                ..*old(seeker)
            })
            &&& *final(warden) == (Warden {
                successful_connections: (old(warden).successful_connections + 1) as u64,
                active_connections: (old(warden).active_connections - 1) as u8,
                ..*old(warden)
            })
        },
{
    let unused_escrow = connection.amount_escrowed - connection.amount_paid;
    let new_balance = match seeker.escrow_balance.checked_add(unused_escrow) {
        Some(v) => v,
        None => {
            return Err(ArkhamErrorCode::ArithmeticOverflow);
        },
    };
    let new_successful = match warden.successful_connections.checked_add(1) {
        Some(v) => v,
        None => {
            return Err(ArkhamErrorCode::ArithmeticOverflow);
        },
    };
    let new_seeker_active = match seeker.active_connections.checked_sub(1) {
        Some(v) => v,
        None => {
            return Err(ArkhamErrorCode::ArithmeticOverflow);
        },
    };
    let new_warden_active = match warden.active_connections.checked_sub(1) {
        Some(v) => v,
        None => {
            return Err(ArkhamErrorCode::ArithmeticOverflow);
        },
    };
    let new_consumed = match seeker.total_bandwidth_consumed.checked_add(
        connection.bandwidth_consumed,
    ) {
        Some(v) => v,
        None => {
            return Err(ArkhamErrorCode::ArithmeticOverflow);
        },
    };
    let new_spent = match seeker.total_spent.checked_add(connection.amount_paid) {
        Some(v) => v,
        None => {
            return Err(ArkhamErrorCode::ArithmeticOverflow);
        },
    };
    seeker.escrow_balance = new_balance;
    warden.successful_connections = new_successful;
    seeker.active_connections = new_seeker_active;
    warden.active_connections = new_warden_active;
    seeker.total_bandwidth_consumed = new_consumed;
    seeker.total_spent = new_spent;
    Ok(
        ConnectionEnded {
            seeker: connection.seeker,
            warden: connection.warden,
            bandwidth_consumed: connection.bandwidth_consumed,
            total_paid: connection.amount_paid,
            refunded: unused_escrow,
        },
    )
}

/// Pays out the Warden's accumulated earnings: refused when nothing is
/// pending, and private payout is not offered; on success the pending total
/// resets to zero and the returned amount is what the caller must transfer.
pub fn claim_earnings_handler(warden: &mut Warden, use_private: bool) -> (r: Result<
    u64,
    ArkhamErrorCode,
>)
    ensures
        old(warden).pending_claims == 0 ==> r == Err::<u64, ArkhamErrorCode>(
            ArkhamErrorCode::NothingToClaim,
        ),
        old(warden).pending_claims > 0 && use_private ==> r == Err::<u64, ArkhamErrorCode>(
            ArkhamErrorCode::PrivatePaymentsNotImplemented,
        ),
        r matches Err(_) ==> *final(warden) == *old(warden),
        old(warden).pending_claims > 0 && !use_private ==> r == Ok::<u64, ArkhamErrorCode>(
            old(warden).pending_claims,
        ) && *final(warden) == (Warden { pending_claims: 0, ..*old(warden) }),
{
    if warden.pending_claims == 0 {
        return Err(ArkhamErrorCode::NothingToClaim);
    }
    let amount = warden.pending_claims;
    if use_private {
        return Err(ArkhamErrorCode::PrivatePaymentsNotImplemented);
    }
    warden.pending_claims = 0;
    Ok(amount)
}

/// Pays out the Warden's earned reward tokens: refused when nothing is earned
/// or while the reward-token mint is uninitialized; on success the earned
/// total resets to zero and the returned amount is what the caller must mint.
pub fn claim_arkham_tokens_handler(warden: &mut Warden, config: &ProtocolConfig) -> (r: Result<
    u64,
    ArkhamErrorCode,
>)
    ensures
        old(warden).arkham_tokens_earned == 0 ==> r == Err::<u64, ArkhamErrorCode>(
            ArkhamErrorCode::NothingToClaim,
        ),
        old(warden).arkham_tokens_earned > 0 && all_zero(config.arkham_token_mint@) ==> r == Err::<
            u64,
            ArkhamErrorCode,
        >(ArkhamErrorCode::TokenMintNotInitialized),
        r matches Err(_) ==> *final(warden) == *old(warden),
        old(warden).arkham_tokens_earned > 0 && !all_zero(config.arkham_token_mint@) ==> r == Ok::<
            u64,
            ArkhamErrorCode,
        >(old(warden).arkham_tokens_earned) && *final(warden) == (Warden {
            arkham_tokens_earned: 0,
            ..*old(warden)
        }),
{
    let amount = warden.arkham_tokens_earned;
    if amount == 0 {
        return Err(ArkhamErrorCode::NothingToClaim);
    }
    if bytes_all_zero(config.arkham_token_mint.as_slice()) {
        return Err(ArkhamErrorCode::TokenMintNotInitialized);
    }
    warden.arkham_tokens_earned = 0;
    Ok(amount)
}

} // verus!
