use arkham_protocol::bandwidth::{create_proof_message, InstructionsSysvar, LoadedInstruction};
use arkham_protocol::errors::{ArkhamErrorCode, BandwidthError, ProtocolError};
use arkham_protocol::payments::{
    claim_arkham_tokens_handler, claim_earnings_handler, deposit_escrow_handler,
    end_connection_handler, start_connection_handler, submit_bandwidth_proof_handler,
};
use arkham_protocol::state::{ProtocolConfig, Seeker, StakeToken, Tier, Warden};
use arkham_protocol::{ED25519_PROGRAM_ID, INSTRUCTIONS_SYSVAR_ID};

fn test_config() -> ProtocolConfig {
    ProtocolConfig {
        authority: [1; 32],
        treasury: [2; 32],
        arkham_token_mint: [0; 32],
        oracle_authority: [3; 32],
        base_rate_per_mb: 1000,
        protocol_fee_bps: 100,
        tier_thresholds: [100, 200, 300],
        tier_multipliers: [10000, 11000, 12000],
        tokens_per_5gb: 51200,
        geo_premiums: vec![],
        reputation_updater: [1; 32],
    }
}

fn test_seeker(balance: u64) -> Seeker {
    Seeker {
        authority: [4; 32],
        escrow_balance: balance,
        private_escrow: None,
        total_bandwidth_consumed: 0,
        total_spent: 0,
        active_connections: 0,
        premium_expires_at: None,
    }
}

fn test_warden() -> Warden {
    Warden {
        authority: [5; 32],
        peer_id: String::new(),
        stake_token: StakeToken::Sol,
        stake_amount: 2_000_000_000,
        stake_value_usd: 300,
        tier: Tier::Gold,
        staked_at: 0,
        unstake_requested_at: None,
        total_bandwidth_served: 0,
        total_earnings: 0,
        pending_claims: 0,
        arkham_tokens_earned: 0,
        reputation_score: 10000,
        successful_connections: 0,
        failed_connections: 0,
        uptime_percentage: 10000,
        last_active: 0,
        region_code: 9,
        ip_hash: [0; 32],
        premium_pool_rank: None,
        active_connections: 0,
    }
}

fn ed25519_instruction(signature: &[u8; 64], pubkey: &[u8; 32], message: &[u8]) -> LoadedInstruction {
    let mut data = vec![0u8; 14];
    data.extend_from_slice(signature);
    data.extend_from_slice(pubkey);
    data.extend_from_slice(message);
    LoadedInstruction { program_id: ED25519_PROGRAM_ID, data }
}

fn dual_sysvar(
    connection_key: &[u8; 32],
    mb: u64,
    now: i64,
    seeker_sig: &[u8; 64],
    seeker_pk: &[u8; 32],
    warden_sig: &[u8; 64],
    warden_pk: &[u8; 32],
) -> InstructionsSysvar {
    let message = create_proof_message(connection_key, mb, now);
    InstructionsSysvar {
        key: INSTRUCTIONS_SYSVAR_ID,
        instructions: vec![
            ed25519_instruction(seeker_sig, seeker_pk, &message),
            ed25519_instruction(warden_sig, warden_pk, &message),
        ],
    }
}

#[test]
fn deposit_credits_the_escrow() {
    let mut seeker = test_seeker(10);
    assert_eq!(deposit_escrow_handler(&mut seeker, 90, false), Ok(()));
    assert_eq!(seeker.escrow_balance, 100);
    assert_eq!(
        deposit_escrow_handler(&mut seeker, 5, true),
        Err(ArkhamErrorCode::PrivatePaymentsNotImplemented)
    );
    assert_eq!(seeker.escrow_balance, 100);
    assert_eq!(
        deposit_escrow_handler(&mut seeker, u64::MAX, false),
        Err(ArkhamErrorCode::ArithmeticOverflow)
    );
    assert_eq!(seeker.escrow_balance, 100);
}

#[test]
fn start_connection_prices_the_scenario_exactly() {
    // base 1000, no geo premium, 12000 bps multiplier => rate 1200;
    // 100 MB => 120000 base escrow => 132000 with the 10% buffer.
    let config = test_config();
    let mut seeker = test_seeker(132000);
    let mut warden = test_warden();
    let connection =
        start_connection_handler(&config, &[4; 32], &[5; 32], &mut seeker, &mut warden, 100, 50)
            .unwrap();
    assert_eq!(connection.rate_per_mb, 1200);
    assert_eq!(connection.warden_multiplier, 12000);
    assert_eq!(connection.amount_escrowed, 132000);
    assert_eq!(connection.amount_paid, 0);
    assert_eq!(seeker.escrow_balance, 0);
    assert_eq!(seeker.active_connections, 1);
    assert_eq!(warden.active_connections, 1);
}

#[test]
fn start_connection_rejects_one_lamport_short() {
    let config = test_config();
    let mut seeker = test_seeker(131999);
    let mut warden = test_warden();
    assert_eq!(
        start_connection_handler(&config, &[4; 32], &[5; 32], &mut seeker, &mut warden, 100, 50),
        Err(ArkhamErrorCode::InsufficientEscrow)
    );
    assert_eq!(seeker.escrow_balance, 131999);
    assert_eq!(seeker.active_connections, 0);
    assert_eq!(warden.active_connections, 0);
}

#[test]
fn geo_premium_raises_the_rate() {
    let mut config = test_config();
    config.geo_premiums = vec![
        arkham_protocol::state::GeoPremium { region_code: 8, premium_bps: 100 },
        arkham_protocol::state::GeoPremium { region_code: 9, premium_bps: 5000 },
    ];
    let mut seeker = test_seeker(1_000_000);
    let mut warden = test_warden();
    // base 1000 * 1.5 = 1500; * 12000 bps = 1800; the warden's region matches
    // the second table entry.
    let connection =
        start_connection_handler(&config, &[4; 32], &[5; 32], &mut seeker, &mut warden, 100, 50)
            .unwrap();
    assert_eq!(connection.rate_per_mb, 1800);
}

#[test]
fn accepted_proofs_pay_and_never_exceed_the_escrow() {
    let config = test_config();
    let mut seeker = test_seeker(132000);
    let mut warden = test_warden();
    let connection_key = [6u8; 32];
    let mut connection =
        start_connection_handler(&config, &[4; 32], &[5; 32], &mut seeker, &mut warden, 100, 50)
            .unwrap();

    let seeker_sig = [11u8; 64];
    let warden_sig = [12u8; 64];
    let now = 60i64;
    let sysvar = dual_sysvar(&connection_key, 50, now, &seeker_sig, &[4; 32], &warden_sig, &[5; 32]);
    let (event, anomalous) = submit_bandwidth_proof_handler(
        &config,
        &connection_key,
        &mut connection,
        &mut warden,
        &seeker,
        &sysvar,
        50,
        seeker_sig,
        warden_sig,
        now,
    )
    .unwrap();
    // 50 MB at rate 1200 = 60000; reward 50 * (51200 / 5120) = 500.
    assert_eq!(event.payment_amount, 60000);
    assert_eq!(event.arkham_earned, 500);
    assert!(!anomalous);
    assert_eq!(connection.amount_paid, 60000);
    assert_eq!(connection.bandwidth_consumed, 50);
    assert_eq!(connection.bandwidth_proofs.len(), 1);
    assert_eq!(warden.pending_claims, 60000);
    assert_eq!(warden.total_earnings, 60000);
    assert_eq!(warden.total_bandwidth_served, 50);
    assert_eq!(warden.last_active, now);
    assert!(connection.amount_paid <= connection.amount_escrowed);

    // A second, different proof still fits the escrow.
    let now2 = 70i64;
    let sysvar2 =
        dual_sysvar(&connection_key, 60, now2, &seeker_sig, &[4; 32], &warden_sig, &[5; 32]);
    let before = connection.amount_paid;
    submit_bandwidth_proof_handler(
        &config,
        &connection_key,
        &mut connection,
        &mut warden,
        &seeker,
        &sysvar2,
        60,
        seeker_sig,
        warden_sig,
        now2,
    )
    .unwrap();
    assert!(connection.amount_paid >= before);
    assert_eq!(connection.amount_paid, 132000);
    assert!(connection.amount_paid <= connection.amount_escrowed);

    // A third proof would breach the escrow: hard stop, nothing changes.
    let now3 = 80i64;
    let sysvar3 =
        dual_sysvar(&connection_key, 1, now3, &seeker_sig, &[4; 32], &warden_sig, &[5; 32]);
    assert_eq!(
        submit_bandwidth_proof_handler(
            &config,
            &connection_key,
            &mut connection,
            &mut warden,
            &seeker,
            &sysvar3,
            1,
            seeker_sig,
            warden_sig,
            now3,
        ),
        Err(ProtocolError::Arkham(ArkhamErrorCode::InsufficientConnectionEscrow))
    );
    assert_eq!(connection.amount_paid, 132000);
    assert_eq!(connection.bandwidth_proofs.len(), 2);
}

#[test]
fn replaying_a_proof_is_rejected_the_second_time() {
    let config = test_config();
    let mut seeker = test_seeker(132000);
    let mut warden = test_warden();
    let connection_key = [6u8; 32];
    let mut connection =
        start_connection_handler(&config, &[4; 32], &[5; 32], &mut seeker, &mut warden, 100, 50)
            .unwrap();

    let seeker_sig = [11u8; 64];
    let warden_sig = [12u8; 64];
    let now = 60i64;
    let sysvar = dual_sysvar(&connection_key, 50, now, &seeker_sig, &[4; 32], &warden_sig, &[5; 32]);

    // The first submission settles.
    assert!(submit_bandwidth_proof_handler(
        &config,
        &connection_key,
        &mut connection,
        &mut warden,
        &seeker,
        &sysvar,
        50,
        seeker_sig,
        warden_sig,
        now,
    )
    .is_ok());
    let paid_after_first = connection.amount_paid;

    // The byte-identical resubmission is rejected and nothing changes.
    assert_eq!(
        submit_bandwidth_proof_handler(
            &config,
            &connection_key,
            &mut connection,
            &mut warden,
            &seeker,
            &sysvar,
            50,
            seeker_sig,
            warden_sig,
            now,
        ),
        Err(ProtocolError::Bandwidth(BandwidthError::InvalidSignature))
    );
    assert_eq!(connection.amount_paid, paid_after_first);
    assert_eq!(connection.bandwidth_proofs.len(), 1);
    assert_eq!(warden.pending_claims, paid_after_first);
}

#[test]
fn proof_history_keeps_the_last_ten_and_flags_anomalies() {
    let config = test_config();
    let mut seeker = test_seeker(100_000_000);
    let mut warden = test_warden();
    let connection_key = [6u8; 32];
    let mut connection = start_connection_handler(
        &config,
        &[4; 32],
        &[5; 32],
        &mut seeker,
        &mut warden,
        50_000,
        50,
    )
    .unwrap();

    let seeker_sig = [11u8; 64];
    let warden_sig = [12u8; 64];
    for k in 0..12u64 {
        let now = 100 + k as i64;
        let sysvar =
            dual_sysvar(&connection_key, 100, now, &seeker_sig, &[4; 32], &warden_sig, &[5; 32]);
        let (_, anomalous) = submit_bandwidth_proof_handler(
            &config,
            &connection_key,
            &mut connection,
            &mut warden,
            &seeker,
            &sysvar,
            100,
            seeker_sig,
            warden_sig,
            now,
        )
        .unwrap();
        assert!(!anomalous);
    }
    assert_eq!(connection.bandwidth_proofs.len(), 10);
    // The oldest proofs were evicted: the first kept one is from timestamp 102.
    assert_eq!(connection.bandwidth_proofs[0].timestamp, 102);

    // A claim more than three times the recent mean of 100 is flagged, but
    // still settles.
    let now = 200i64;
    let sysvar =
        dual_sysvar(&connection_key, 301, now, &seeker_sig, &[4; 32], &warden_sig, &[5; 32]);
    let (event, anomalous) = submit_bandwidth_proof_handler(
        &config,
        &connection_key,
        &mut connection,
        &mut warden,
        &seeker,
        &sysvar,
        301,
        seeker_sig,
        warden_sig,
        now,
    )
    .unwrap();
    assert!(anomalous);
    assert_eq!(event.payment_amount, 301 * 1200);
}

#[test]
fn end_connection_refunds_exactly_the_unused_escrow() {
    let config = test_config();
    let mut seeker = test_seeker(132000);
    let mut warden = test_warden();
    let connection_key = [6u8; 32];
    let mut connection =
        start_connection_handler(&config, &[4; 32], &[5; 32], &mut seeker, &mut warden, 100, 50)
            .unwrap();

    let seeker_sig = [11u8; 64];
    let warden_sig = [12u8; 64];
    let sysvar = dual_sysvar(&connection_key, 50, 60, &seeker_sig, &[4; 32], &warden_sig, &[5; 32]);
    submit_bandwidth_proof_handler(
        &config,
        &connection_key,
        &mut connection,
        &mut warden,
        &seeker,
        &sysvar,
        50,
        seeker_sig,
        warden_sig,
        60,
    )
    .unwrap();

    let event = end_connection_handler(&connection, &mut seeker, &mut warden).unwrap();
    // Escrowed 132000, paid 60000: exactly 72000 comes back.
    assert_eq!(event.refunded, 72000);
    assert_eq!(event.total_paid, 60000);
    assert_eq!(event.bandwidth_consumed, 50);
    assert_eq!(seeker.escrow_balance, 72000);
    assert_eq!(seeker.total_spent, 60000);
    assert_eq!(seeker.total_bandwidth_consumed, 50);
    assert_eq!(seeker.active_connections, 0);
    assert_eq!(warden.active_connections, 0);
    assert_eq!(warden.successful_connections, 1);
}

#[test]
fn claims_pay_out_once_and_reject_empty_claims() {
    let mut warden = test_warden();
    assert_eq!(claim_earnings_handler(&mut warden, false), Err(ArkhamErrorCode::NothingToClaim));
    warden.pending_claims = 777;
    assert_eq!(
        claim_earnings_handler(&mut warden, true),
        Err(ArkhamErrorCode::PrivatePaymentsNotImplemented)
    );
    assert_eq!(claim_earnings_handler(&mut warden, false), Ok(777));
    assert_eq!(warden.pending_claims, 0);

    let mut config = test_config();
    warden.arkham_tokens_earned = 55;
    assert_eq!(
        claim_arkham_tokens_handler(&mut warden, &config),
        Err(ArkhamErrorCode::TokenMintNotInitialized)
    );
    config.arkham_token_mint = [8; 32];
    assert_eq!(claim_arkham_tokens_handler(&mut warden, &config), Ok(55));
    assert_eq!(warden.arkham_tokens_earned, 0);
    assert_eq!(
        claim_arkham_tokens_handler(&mut warden, &config),
        Err(ArkhamErrorCode::NothingToClaim)
    );
}
