use arkham_protocol::admin::{
    distribute_subsidies_handler, initialize_arkham_mint_handler,
    initialize_protocol_config_handler, migrate_protocol_config_handler,
    update_protocol_config_handler, update_warden_peer_id_handler,
};
use arkham_protocol::errors::ArkhamErrorCode;
use arkham_protocol::state::{GeoPremium, ProtocolConfig, StakeToken, Tier, Warden};

fn make_config() -> ProtocolConfig {
    initialize_protocol_config_handler(
        &[1; 32],
        &[2; 32],
        1000,
        100,
        [100, 200, 300],
        [10000, 11000, 12000],
        51200,
        vec![GeoPremium { region_code: 1, premium_bps: 500 }],
        [3; 32],
    )
    .unwrap()
}

fn test_warden() -> Warden {
    Warden {
        authority: [5; 32],
        peer_id: "12D3KooW-previous-previous-previous-previous-peer".to_string(),
        stake_token: StakeToken::Sol,
        stake_amount: 2_000_000_000,
        stake_value_usd: 300,
        tier: Tier::Gold,
        staked_at: 0,
        unstake_requested_at: None,
        total_bandwidth_served: 0,
        total_earnings: 0,
        pending_claims: 0,
        arkham_tokens_earned: 0,
        reputation_score: 10000,
        successful_connections: 0,
        failed_connections: 0,
        uptime_percentage: 10000,
        last_active: 1000,
        region_code: 9,
        ip_hash: [0; 32],
        premium_pool_rank: None,
        active_connections: 0,
    }
}

#[test]
fn config_initialization_validates_its_ranges() {
    let config = make_config();
    assert_eq!(config.authority, [1; 32]);
    assert_eq!(config.reputation_updater, [1; 32]);
    assert_eq!(config.arkham_token_mint, [0; 32]);
    assert_eq!(config.oracle_authority, [3; 32]);

    assert_eq!(
        initialize_protocol_config_handler(
            &[1; 32],
            &[2; 32],
            1000,
            10001,
            [100, 200, 300],
            [10000, 11000, 12000],
            51200,
            vec![],
            [3; 32],
        ),
        Err(ArkhamErrorCode::InvalidFeeBps)
    );
    assert_eq!(
        initialize_protocol_config_handler(
            &[1; 32],
            &[2; 32],
            1000,
            100,
            [300, 200, 100],
            [10000, 11000, 12000],
            51200,
            vec![],
            [3; 32],
        ),
        Err(ArkhamErrorCode::InvalidTierThresholds)
    );
    assert_eq!(
        initialize_protocol_config_handler(
            &[1; 32],
            &[2; 32],
            1000,
            100,
            [100, 200, 300],
            [10000, 50001, 12000],
            51200,
            vec![],
            [3; 32],
        ),
        Err(ArkhamErrorCode::InvalidTierMultiplier)
    );
    // Two entries naming one region are rejected before anything is built.
    assert_eq!(
        initialize_protocol_config_handler(
            &[1; 32],
            &[2; 32],
            1000,
            100,
            [100, 200, 300],
            [10000, 11000, 12000],
            51200,
            vec![
                GeoPremium { region_code: 1, premium_bps: 500 },
                GeoPremium { region_code: 1, premium_bps: 600 },
            ],
            [3; 32],
        ),
        Err(ArkhamErrorCode::DuplicateRegionCode)
    );
    // A premium beyond 500% is rejected too.
    assert_eq!(
        initialize_protocol_config_handler(
            &[1; 32],
            &[2; 32],
            1000,
            100,
            [100, 200, 300],
            [10000, 11000, 12000],
            51200,
            vec![GeoPremium { region_code: 1, premium_bps: 50001 }],
            [3; 32],
        ),
        Err(ArkhamErrorCode::InvalidGeoPremium)
    );
}

#[test]
fn config_updates_validate_and_apply() {
    let mut config = make_config();

    assert_eq!(
        update_protocol_config_handler(
            &mut config,
            &[9; 32],
            Some(2000),
            None,
            None,
            None,
            None,
            None,
            None,
            None,
        ),
        Err(ArkhamErrorCode::UnauthorizedAdminAction)
    );
    assert_eq!(config.base_rate_per_mb, 1000);

    assert_eq!(
        update_protocol_config_handler(
            &mut config,
            &[1; 32],
            Some(2000),
            Some(10001),
            None,
            None,
            None,
            None,
            None,
            None,
        ),
        Err(ArkhamErrorCode::InvalidFeeBps)
    );
    // Nothing was applied, the base rate included.
    assert_eq!(config.base_rate_per_mb, 1000);

    assert_eq!(
        update_protocol_config_handler(
            &mut config,
            &[1; 32],
            None,
            None,
            None,
            None,
            None,
            Some(vec![
                GeoPremium { region_code: 4, premium_bps: 100 },
                GeoPremium { region_code: 4, premium_bps: 200 },
            ]),
            None,
            None,
        ),
        Err(ArkhamErrorCode::DuplicateRegionCode)
    );
    assert_eq!(
        update_protocol_config_handler(
            &mut config,
            &[1; 32],
            None,
            None,
            None,
            None,
            None,
            Some(vec![GeoPremium { region_code: 4, premium_bps: 50001 }]),
            None,
            None,
        ),
        Err(ArkhamErrorCode::InvalidGeoPremium)
    );

    assert_eq!(
        update_protocol_config_handler(
            &mut config,
            &[1; 32],
            Some(2000),
            Some(50),
            Some([1000, 2000, 3000]),
            Some([9000, 9500, 10000]),
            Some(1024),
            Some(vec![GeoPremium { region_code: 4, premium_bps: 100 }]),
            Some([30; 32]),
            Some([31; 32]),
        ),
        Ok(())
    );
    assert_eq!(config.base_rate_per_mb, 2000);
    assert_eq!(config.protocol_fee_bps, 50);
    assert_eq!(config.tier_thresholds, [1000, 2000, 3000]);
    assert_eq!(config.tier_multipliers, [9000, 9500, 10000]);
    assert_eq!(config.tokens_per_5gb, 1024);
    assert_eq!(config.geo_premiums, vec![GeoPremium { region_code: 4, premium_bps: 100 }]);
    assert_eq!(config.reputation_updater, [30; 32]);
    assert_eq!(config.oracle_authority, [31; 32]);
    assert_eq!(config.authority, [1; 32]);
}

#[test]
fn the_mint_is_recorded_once() {
    let mut config = make_config();
    assert_eq!(
        initialize_arkham_mint_handler(&mut config, &[9; 32], &[7; 32]),
        Err(ArkhamErrorCode::UnauthorizedAdminAction)
    );
    assert_eq!(initialize_arkham_mint_handler(&mut config, &[1; 32], &[7; 32]), Ok(()));
    assert_eq!(config.arkham_token_mint, [7; 32]);
    assert_eq!(
        initialize_arkham_mint_handler(&mut config, &[1; 32], &[8; 32]),
        Err(ArkhamErrorCode::TokenMintAlreadyInitialized)
    );
    assert_eq!(config.arkham_token_mint, [7; 32]);
}

#[test]
fn subsidies_are_bounded_by_the_treasury() {
    let config = make_config();
    let keys = vec![[5u8; 32], [6u8; 32]];
    assert_eq!(
        distribute_subsidies_handler(&config, &[9; 32], 1000, &keys, &vec![400, 500]),
        Err(ArkhamErrorCode::UnauthorizedAdminAction)
    );
    assert_eq!(
        distribute_subsidies_handler(&config, &[1; 32], 1000, &keys, &vec![400]),
        Err(ArkhamErrorCode::InvalidSubsidyDistribution)
    );
    assert_eq!(
        distribute_subsidies_handler(&config, &[1; 32], 1000, &keys, &vec![u64::MAX, 1]),
        Err(ArkhamErrorCode::ArithmeticOverflow)
    );
    assert_eq!(
        distribute_subsidies_handler(&config, &[1; 32], 899, &keys, &vec![400, 500]),
        Err(ArkhamErrorCode::InsufficientTreasuryBalance)
    );
    assert_eq!(distribute_subsidies_handler(&config, &[1; 32], 900, &keys, &vec![400, 500]), Ok(900));
}

#[test]
fn peer_id_repairs_are_validated() {
    let config = make_config();
    let mut warden = test_warden();
    let good = "12D3KooW-replacement-replacement-replacement-peer".to_string();

    assert_eq!(
        update_warden_peer_id_handler(&config, &mut warden, &[9; 32], good.clone()),
        Err(ArkhamErrorCode::UnauthorizedAdminAction)
    );
    // Wrong prefix.
    assert_eq!(
        update_warden_peer_id_handler(
            &config,
            &mut warden,
            &[1; 32],
            "QmYwAPJzv5CZsnAzt8auVZRnrightlyLongEnoughForAll".to_string(),
        ),
        Err(ArkhamErrorCode::InvalidPeerId)
    );
    // Too short.
    assert_eq!(
        update_warden_peer_id_handler(&config, &mut warden, &[1; 32], "12D3KooW".to_string()),
        Err(ArkhamErrorCode::InvalidPeerId)
    );
    // Too long.
    let long = format!("12D3KooW{}", "x".repeat(60));
    assert_eq!(
        update_warden_peer_id_handler(&config, &mut warden, &[1; 32], long),
        Err(ArkhamErrorCode::InvalidPeerId)
    );
    let displaced = update_warden_peer_id_handler(&config, &mut warden, &[1; 32], good.clone())
        .unwrap();
    assert_eq!(displaced, "12D3KooW-previous-previous-previous-previous-peer");
    assert_eq!(warden.peer_id, good);
}

#[test]
fn the_oracle_authority_can_be_rebound() {
    let mut config = make_config();
    assert_eq!(
        migrate_protocol_config_handler(&mut config, &[9; 32], &[8; 32]),
        Err(ArkhamErrorCode::UnauthorizedAdminAction)
    );
    assert_eq!(config.oracle_authority, [3; 32]);
    assert_eq!(migrate_protocol_config_handler(&mut config, &[1; 32], &[8; 32]), Ok(()));
    assert_eq!(config.oracle_authority, [8; 32]);
}
