use arkham_protocol::errors::ArkhamErrorCode;
use arkham_protocol::reputation::{
    calculate_reputation_score, update_premium_pool_rankings_handler, update_reputation_handler,
};
use arkham_protocol::state::{ProtocolConfig, StakeToken, Tier, Warden};

fn test_config() -> ProtocolConfig {
    ProtocolConfig {
        authority: [1; 32],
        treasury: [2; 32],
        arkham_token_mint: [0; 32],
        oracle_authority: [3; 32],
        base_rate_per_mb: 1000,
        protocol_fee_bps: 100,
        tier_thresholds: [100, 200, 300],
        tier_multipliers: [10000, 11000, 12000],
        tokens_per_5gb: 51200,
        geo_premiums: vec![],
        reputation_updater: [20; 32],
    }
}

fn test_warden() -> Warden {
    Warden {
        authority: [5; 32],
        peer_id: String::new(),
        stake_token: StakeToken::Sol,
        stake_amount: 2_000_000_000,
        stake_value_usd: 300,
        tier: Tier::Gold,
        staked_at: 0,
        unstake_requested_at: None,
        total_bandwidth_served: 0,
        total_earnings: 0,
        pending_claims: 0,
        arkham_tokens_earned: 0,
        reputation_score: 10000,
        successful_connections: 0,
        failed_connections: 0,
        uptime_percentage: 10000,
        last_active: 1000,
        region_code: 9,
        ip_hash: [0; 32],
        premium_pool_rank: None,
        active_connections: 0,
    }
}

#[test]
fn a_new_warden_scores_its_full_success_weight() {
    // No recorded outcome: the success-rate component is worth its whole 4000,
    // uptime its 3000, same-day activity its 2000, no decay penalty: 10000.
    let warden = test_warden();
    assert_eq!(calculate_reputation_score(&warden, 1000), Ok(10000));

    // With zero reported uptime the other components remain: 4000 + 2000 + 1000.
    let mut quiet = test_warden();
    quiet.uptime_percentage = 0;
    assert_eq!(calculate_reputation_score(&quiet, 1000), Ok(7000));
}

#[test]
fn the_score_stays_within_its_scale() {
    // Every outcome failed, nothing else contributing beyond the decay floor.
    let mut worst = test_warden();
    worst.failed_connections = 50;
    worst.uptime_percentage = 0;
    worst.last_active = 0;
    // 400 days inactive: success 0of4000? 0 successes => 0; uptime 0; activity
    // 0; decay penalty capped at 5000 => (10000-5000)*10/100 = 500.
    let now = 400 * 86400;
    let score = calculate_reputation_score(&worst, now).unwrap();
    assert_eq!(score, 500);

    // An inflated uptime report cannot push the score past 10000.
    let mut inflated = test_warden();
    inflated.uptime_percentage = u16::MAX;
    let score = calculate_reputation_score(&inflated, 1000).unwrap();
    assert_eq!(score, 10000);
}

#[test]
fn activity_fades_over_a_week() {
    let mut warden = test_warden();
    warden.uptime_percentage = 0;
    warden.last_active = 0;
    // Three days inactive: success 4000, activity 10000-3*10000/7 = 5715
    // => 1143 at 20%, decay still whole: 1000.
    let score = calculate_reputation_score(&warden, 3 * 86400).unwrap();
    assert_eq!(score, 4000 + 1143 + 1000);
    // Eight days inactive: no activity component, decay penalty 100.
    let score = calculate_reputation_score(&warden, 8 * 86400).unwrap();
    assert_eq!(score, 4000 + 0 + 990);
}

#[test]
fn only_the_updater_may_report_and_counters_move() {
    let config = test_config();
    let mut warden = test_warden();

    assert_eq!(
        update_reputation_handler(&config, &mut warden, &[1; 32], true, 9000, 2000),
        Err(ArkhamErrorCode::UnauthorizedReputationUpdate)
    );
    assert_eq!(warden.successful_connections, 0);

    // One success reported by the real updater.
    let score = update_reputation_handler(&config, &mut warden, &[20; 32], true, 9000, 2000)
        .unwrap();
    assert_eq!(warden.successful_connections, 1);
    assert_eq!(warden.failed_connections, 0);
    assert_eq!(warden.uptime_percentage, 9000);
    assert_eq!(warden.last_active, 2000);
    assert_eq!(warden.reputation_score, score);
    // success 4000 + uptime 2700 + activity 2000 + decay 1000.
    assert_eq!(score, 9700);

    // One failure halves the success rate: 2000 + 2700 + 2000 + 1000.
    let score = update_reputation_handler(&config, &mut warden, &[20; 32], false, 9000, 2100)
        .unwrap();
    assert_eq!(warden.failed_connections, 1);
    assert_eq!(score, 7700);
}

#[test]
fn rankings_are_gated_by_the_updater_key() {
    let config = test_config();
    let wardens = vec![[5u8; 32], [6u8; 32]];
    assert_eq!(
        update_premium_pool_rankings_handler(&config, &[1; 32], &wardens),
        Err(ArkhamErrorCode::UnauthorizedReputationUpdate)
    );
    assert_eq!(update_premium_pool_rankings_handler(&config, &[20; 32], &wardens), Ok(2));
}
