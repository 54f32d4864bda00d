use vstd::prelude::*;
use vstd::slice::slice_subrange;
use vstd::utf8::encode_utf8;
use crate::bandwidth::{lemma_sum_seq_prefix_le, lemma_sum_seq_step, sum_seq};
use crate::bytes::{all_zero, bytes_all_zero, bytes_eq};
use crate::errors::ArkhamErrorCode;
use crate::state::{find_duplicate_region, find_excessive_premium, has_duplicate_region,
    has_excessive_premium, GeoPremium, ProtocolConfig, Warden};
use crate::{pubkey_eq, Pubkey, PUBKEY_DEFAULT};

verus! {

/// Reports a freshly initialized protocol configuration.
#[derive(Clone, Copy, Debug, PartialEq, Eq)]
pub struct ProtocolConfigInitialized {
    pub authority: Pubkey,
    pub base_rate_per_mb: u64,
    pub protocol_fee_bps: u16,
}

/// Reports which protocol parameters an update touched.
#[derive(Clone, Copy, Debug, PartialEq, Eq)]
pub struct ProtocolConfigUpdated {
    pub authority: Pubkey,
    pub new_base_rate_per_mb: Option<u64>,
    pub new_protocol_fee_bps: Option<u16>,
    pub new_tier_thresholds: Option<[u64; 3]>,
    pub new_tier_multipliers: Option<[u16; 3]>,
    pub new_tokens_per_5gb: Option<u64>,
}

/// Reports the initialized reward-token mint.
#[derive(Clone, Copy, Debug, PartialEq, Eq)]
pub struct ArkhamMintInitialized {
    pub authority: Pubkey,
    pub mint: Pubkey,
}

/// Reports a subsidy distribution batch.
#[derive(Clone, Copy, Debug, PartialEq, Eq)]
pub struct SubsidiesDistributed {
    pub authority: Pubkey,
    pub warden_count: u32,
    pub total_amount: u64,
}

/// Reports a corrected Warden peer identifier.
#[derive(Clone, Debug, PartialEq, Eq)]
pub struct WardenPeerIdUpdated {
    pub warden_authority: Pubkey,
    pub old_peer_id: String,
    pub new_peer_id: String,
}

/// Whether the three multipliers all stay within the 5x bound.
pub open spec fn multipliers_ok(multipliers: [u16; 3]) -> bool {
    multipliers[0] <= 50000 && multipliers[1] <= 50000 && multipliers[2] <= 50000
}

/// Whether the three thresholds ascend.
pub open spec fn thresholds_ok(thresholds: [u64; 3]) -> bool {
    thresholds[0] <= thresholds[1] && thresholds[1] <= thresholds[2]
}

/// The freshly validated configuration, or the first reason it is refused:
/// the fee within 100%, the thresholds ascending, every multiplier at most 5x,
/// each region named once in the premium table, every premium at most 500%.
/// The reward-token mint starts unset and the authority starts as the
/// reputation updater.
pub open spec fn spec_initialize_protocol_config(
    authority: Pubkey,
    treasury: Pubkey,
    base_rate_per_mb: u64,
    protocol_fee_bps: u16,
    tier_thresholds: [u64; 3],
    tier_multipliers: [u16; 3],
    tokens_per_5gb: u64,
    geo_premiums: Vec<GeoPremium>,
    oracle_authority: Pubkey,
) -> Result<ProtocolConfig, ArkhamErrorCode> {
    if protocol_fee_bps > 10000 {
        Err(ArkhamErrorCode::InvalidFeeBps)
    } else if !thresholds_ok(tier_thresholds) {
        Err(ArkhamErrorCode::InvalidTierThresholds)
    } else if !multipliers_ok(tier_multipliers) {
        Err(ArkhamErrorCode::InvalidTierMultiplier)
    } else if has_duplicate_region(geo_premiums@) {
        Err(ArkhamErrorCode::DuplicateRegionCode)
    } else if has_excessive_premium(geo_premiums@) {
        Err(ArkhamErrorCode::InvalidGeoPremium)
    } else {
        Ok(
            (ProtocolConfig {
                authority,
                treasury,
                arkham_token_mint: PUBKEY_DEFAULT,
                oracle_authority,
                base_rate_per_mb,
                protocol_fee_bps,
                tier_thresholds,
                tier_multipliers,
                tokens_per_5gb,
                geo_premiums,
                reputation_updater: authority,
            }),
        )
    }
}

/// Validates the protocol parameters and produces the configuration record;
/// this must run once before any other operation.
pub fn initialize_protocol_config_handler(
    authority: &Pubkey,
    treasury: &Pubkey,
    base_rate_per_mb: u64,
    protocol_fee_bps: u16,
    tier_thresholds: [u64; 3],
    tier_multipliers: [u16; 3],
    tokens_per_5gb: u64,
    geo_premiums: Vec<GeoPremium>,
    oracle_authority: Pubkey,
) -> (r: Result<ProtocolConfig, ArkhamErrorCode>)
    ensures
        r == spec_initialize_protocol_config(
            *authority,
            *treasury,
            base_rate_per_mb,
            protocol_fee_bps,
            tier_thresholds,
            tier_multipliers,
            tokens_per_5gb,
            geo_premiums,
            oracle_authority,
        ),
        r matches Ok(c) ==> c.wf(),
{
    if protocol_fee_bps > 10000 {
        return Err(ArkhamErrorCode::InvalidFeeBps);
    }
    if !(tier_thresholds[0] <= tier_thresholds[1] && tier_thresholds[1] <= tier_thresholds[2]) {
        return Err(ArkhamErrorCode::InvalidTierThresholds);
    }
    if tier_multipliers[0] > 50000 || tier_multipliers[1] > 50000 || tier_multipliers[2] > 50000 {
        return Err(ArkhamErrorCode::InvalidTierMultiplier);
    }
    if find_duplicate_region(&geo_premiums) {
        return Err(ArkhamErrorCode::DuplicateRegionCode);
    }
    if find_excessive_premium(&geo_premiums) {
        return Err(ArkhamErrorCode::InvalidGeoPremium);
    }
    Ok(
        ProtocolConfig {
            authority: *authority,
            treasury: *treasury,
            arkham_token_mint: PUBKEY_DEFAULT,
            oracle_authority,
            base_rate_per_mb,
            protocol_fee_bps,
            tier_thresholds,
            tier_multipliers,
            tokens_per_5gb,
            geo_premiums,
            reputation_updater: *authority,
        },
    )
}

/// What a configuration update may be refused for, in order: the caller must
/// be the protocol authority, a new fee must stay within 100%, new thresholds
/// must ascend, new multipliers must stay within 5x, a new premium table must
/// name each region once and stay within 500%.
pub open spec fn spec_update_protocol_config_check(
    config: ProtocolConfig,
    caller: Pubkey,
    new_protocol_fee_bps: Option<u16>,
    new_tier_thresholds: Option<[u64; 3]>,
    new_tier_multipliers: Option<[u16; 3]>,
    new_geo_premiums: Option<Vec<GeoPremium>>,
) -> Result<(), ArkhamErrorCode> {
    if caller@ != config.authority@ {
        Err(ArkhamErrorCode::UnauthorizedAdminAction)
    } else if new_protocol_fee_bps matches Some(fee) && fee > 10000 {
        Err(ArkhamErrorCode::InvalidFeeBps)
    } else if new_tier_thresholds matches Some(t) && !thresholds_ok(t) {
        Err(ArkhamErrorCode::InvalidTierThresholds)
    } else if new_tier_multipliers matches Some(m) && !multipliers_ok(m) {
        Err(ArkhamErrorCode::InvalidTierMultiplier)
    } else if new_geo_premiums matches Some(g) && has_duplicate_region(g@) {
        Err(ArkhamErrorCode::DuplicateRegionCode)
    } else if new_geo_premiums matches Some(g) && has_excessive_premium(g@) {
        Err(ArkhamErrorCode::InvalidGeoPremium)
    } else {
        Ok(())
    }
}

/// Applies the provided parameter changes to the configuration, validating
/// each as the initializer does; only the protocol authority may call, and on
/// any refusal nothing changes.
pub fn update_protocol_config_handler(
    config: &mut ProtocolConfig,
    caller: &Pubkey,
    new_base_rate_per_mb: Option<u64>,
    new_protocol_fee_bps: Option<u16>,
    new_tier_thresholds: Option<[u64; 3]>,
    new_tier_multipliers: Option<[u16; 3]>,
    new_tokens_per_5gb: Option<u64>,
    new_geo_premiums: Option<Vec<GeoPremium>>,
    new_reputation_updater: Option<Pubkey>,
    new_oracle_authority: Option<Pubkey>,
) -> (r: Result<(), ArkhamErrorCode>)
    requires
        old(config).wf(),
    ensures
        r == spec_update_protocol_config_check(
            *old(config),
            *caller,
            new_protocol_fee_bps,
            new_tier_thresholds,
            new_tier_multipliers,
            new_geo_premiums,
        ),
        r matches Err(_) ==> *final(config) == *old(config),
        r matches Ok(_) ==> {
            &&& final(config).base_rate_per_mb == (match new_base_rate_per_mb {
                Some(v) => v,
                None => old(config).base_rate_per_mb,
            })
            &&& final(config).protocol_fee_bps == (match new_protocol_fee_bps {
                Some(v) => v,
                None => old(config).protocol_fee_bps,
            })
            &&& final(config).tier_thresholds == (match new_tier_thresholds {
                Some(v) => v,
                None => old(config).tier_thresholds,
            })
            &&& final(config).tier_multipliers == (match new_tier_multipliers {
                Some(v) => v,
                None => old(config).tier_multipliers,
            })
            &&& final(config).tokens_per_5gb == (match new_tokens_per_5gb {
                Some(v) => v,
                None => old(config).tokens_per_5gb,
            })
            &&& final(config).geo_premiums@ == (match new_geo_premiums {
                Some(v) => v@,
                None => old(config).geo_premiums@,
            })
            &&& final(config).reputation_updater == (match new_reputation_updater {
                Some(v) => v,
                None => old(config).reputation_updater,
            })
            &&& final(config).oracle_authority == (match new_oracle_authority {
                Some(v) => v,
                None => old(config).oracle_authority,
            })
            &&& final(config).authority == old(config).authority
            &&& final(config).treasury == old(config).treasury
            &&& final(config).arkham_token_mint == old(config).arkham_token_mint
            &&& final(config).wf()
        },
{
    if !pubkey_eq(caller, &config.authority) {
        return Err(ArkhamErrorCode::UnauthorizedAdminAction);
    }
    match new_protocol_fee_bps {
        Some(fee) => {
            if fee > 10000 {
                return Err(ArkhamErrorCode::InvalidFeeBps);
            }
        },
        None => {},
    }
    match new_tier_thresholds {
        Some(t) => {
            if !(t[0] <= t[1] && t[1] <= t[2]) {
                return Err(ArkhamErrorCode::InvalidTierThresholds);
            }
        },
        None => {},
    }
    match new_tier_multipliers {
        Some(m) => {
            if m[0] > 50000 || m[1] > 50000 || m[2] > 50000 {
                return Err(ArkhamErrorCode::InvalidTierMultiplier);
            }
        },
        None => {},
    }
    match &new_geo_premiums {
        Some(g) => {
            if find_duplicate_region(g) {
                return Err(ArkhamErrorCode::DuplicateRegionCode);
            }
            if find_excessive_premium(g) {
                return Err(ArkhamErrorCode::InvalidGeoPremium);
            }
        },
        None => {},
    }
    match new_base_rate_per_mb {
        Some(rate) => {
            config.base_rate_per_mb = rate;
        },
        None => {},
    }
    match new_protocol_fee_bps {
        Some(fee) => {
            config.protocol_fee_bps = fee;
        },
        None => {},
    }
    match new_tier_thresholds {
        Some(t) => {
            config.tier_thresholds = t;
        },
        None => {},
    }
    match new_tier_multipliers {
        Some(m) => {
            config.tier_multipliers = m;
        },
        None => {},
    }
    match new_tokens_per_5gb {
        Some(tokens) => {
            config.tokens_per_5gb = tokens;
        },
        None => {},
    }
    match new_geo_premiums {
        Some(g) => {
            config.geo_premiums = g;
        },
        None => {},
    }
    match new_reputation_updater {
        Some(updater) => {
            config.reputation_updater = updater;
        },
        None => {},
    }
    match new_oracle_authority {
        Some(oracle) => {
            config.oracle_authority = oracle;
        },
        None => {},
    }
    Ok(())
}

/// Records the reward-token mint's address in the configuration: only the
/// protocol authority may call, and only while no mint is recorded yet.
pub fn initialize_arkham_mint_handler(
    config: &mut ProtocolConfig,
    caller: &Pubkey,
    mint: &Pubkey,
) -> (r: Result<(), ArkhamErrorCode>)
    ensures
        caller@ != old(config).authority@ ==> r == Err::<(), ArkhamErrorCode>(
            ArkhamErrorCode::UnauthorizedAdminAction,
        ),
        caller@ == old(config).authority@ && !all_zero(old(config).arkham_token_mint@) ==> r
            == Err::<(), ArkhamErrorCode>(ArkhamErrorCode::TokenMintAlreadyInitialized),
        r matches Err(_) ==> *final(config) == *old(config),
        caller@ == old(config).authority@ && all_zero(old(config).arkham_token_mint@) ==> r == Ok::<
            (),
            ArkhamErrorCode,
        >(()) && *final(config) == (ProtocolConfig { arkham_token_mint: *mint, ..*old(config) }),
        old(config).wf() ==> final(config).wf(),
{
    if !pubkey_eq(caller, &config.authority) {
        return Err(ArkhamErrorCode::UnauthorizedAdminAction);
    }
    if !bytes_all_zero(config.arkham_token_mint.as_slice()) {
        return Err(ArkhamErrorCode::TokenMintAlreadyInitialized);
    }
    config.arkham_token_mint = *mint;
    Ok(())
}

/// A subsidy batch's validation, in order: only the protocol authority may
/// distribute, the key and amount lists must pair up, the total must fit the
/// 64-bit range, and the treasury must cover it. On success: the total to pay.
pub open spec fn spec_distribute_subsidies(
    config: ProtocolConfig,
    caller: Pubkey,
    treasury_amount: u64,
    warden_keys: Seq<Pubkey>,
    subsidy_amounts: Seq<u64>,
) -> Result<u64, ArkhamErrorCode> {
    if caller@ != config.authority@ {
        Err(ArkhamErrorCode::UnauthorizedAdminAction)
    } else if warden_keys.len() != subsidy_amounts.len() {
        Err(ArkhamErrorCode::InvalidSubsidyDistribution)
    } else if sum_seq(subsidy_amounts) > u64::MAX {
        Err(ArkhamErrorCode::ArithmeticOverflow)
    } else if treasury_amount < sum_seq(subsidy_amounts) {
        Err(ArkhamErrorCode::InsufficientTreasuryBalance)
    } else {
        Ok(sum_seq(subsidy_amounts) as u64)
    }
}

/// Validates a bootstrap subsidy batch against the treasury balance and
/// returns the total to distribute; the per-Warden crediting is carried out by
/// the caller against each Warden record.
pub fn distribute_subsidies_handler(
    config: &ProtocolConfig,
    caller: &Pubkey,
    treasury_amount: u64,
    warden_keys: &Vec<Pubkey>,
    subsidy_amounts: &Vec<u64>,
) -> (r: Result<u64, ArkhamErrorCode>)
    ensures
        r == spec_distribute_subsidies(
            *config,
            *caller,
            treasury_amount,
            warden_keys@,
            subsidy_amounts@,
        ),
{
    if !pubkey_eq(caller, &config.authority) {
        return Err(ArkhamErrorCode::UnauthorizedAdminAction);
    }
    if warden_keys.len() != subsidy_amounts.len() {
        return Err(ArkhamErrorCode::InvalidSubsidyDistribution);
    }
    let mut total: u64 = 0;
    let mut i: usize = 0;
    while i < subsidy_amounts.len()
        invariant
            0 <= i <= subsidy_amounts@.len(),
            total == sum_seq(subsidy_amounts@.subrange(0, i as int)),
            caller@ == config.authority@,
            warden_keys@.len() == subsidy_amounts@.len(),
        decreases subsidy_amounts@.len() - i,
    {
        proof {
            lemma_sum_seq_step(subsidy_amounts@, i as int);
        }
        total = match total.checked_add(subsidy_amounts[i]) {
            Some(v) => v,
            None => {
                proof {
                    lemma_sum_seq_prefix_le(subsidy_amounts@, i as int + 1);
                }
                return Err(ArkhamErrorCode::ArithmeticOverflow);
            },
        };
        i += 1;
    }
    proof {
        assert(subsidy_amounts@.subrange(0, subsidy_amounts@.len() as int) =~= subsidy_amounts@);
    }
    if treasury_amount < total {
        return Err(ArkhamErrorCode::InsufficientTreasuryBalance);
    }
    Ok(total)
}

/// The ASCII bytes every peer identifier must start with: "12D3KooW".
pub open spec fn peer_id_prefix() -> Seq<u8> {
    seq![49u8, 50u8, 68u8, 51u8, 75u8, 111u8, 111u8, 87u8]
}

/// Whether a peer identifier is acceptable: it starts with the standard
/// "12D3KooW" prefix and its length lies strictly between 40 and 60 bytes.
pub open spec fn valid_peer_id(bytes: Seq<u8>) -> bool {
    &&& bytes.len() > 40
    &&& bytes.len() < 60
    &&& bytes.subrange(0, 8) == peer_id_prefix()
}

/// Returns true when the peer identifier is acceptable.
fn check_peer_id(peer_id: &String) -> (r: bool)
    ensures
        r == valid_peer_id(encode_utf8(peer_id@)),
{
    let bytes = peer_id.as_str().as_bytes();
    if bytes.len() <= 40 || bytes.len() >= 60 {
        return false;
    }
    let prefix: [u8; 8] = [49, 50, 68, 51, 75, 111, 111, 87];
    let head = slice_subrange(bytes, 0, 8);
    bytes_eq(head, prefix.as_slice())
}

/// Replaces a Warden's peer identifier, a repair tool for registration
/// mistakes: only the protocol authority may call, the new identifier must be
/// acceptable, and on success the displaced identifier is returned.
pub fn update_warden_peer_id_handler(
    config: &ProtocolConfig,
    warden: &mut Warden,
    caller: &Pubkey,
    new_peer_id: String,
) -> (r: Result<String, ArkhamErrorCode>)
    ensures
        caller@ != config.authority@ ==> r == Err::<String, ArkhamErrorCode>(
            ArkhamErrorCode::UnauthorizedAdminAction,
        ),
        caller@ == config.authority@ && !valid_peer_id(encode_utf8(new_peer_id@)) ==> r == Err::<
            String,
            ArkhamErrorCode,
        >(ArkhamErrorCode::InvalidPeerId),
        r matches Err(_) ==> *final(warden) == *old(warden),
        caller@ == config.authority@ && valid_peer_id(encode_utf8(new_peer_id@)) ==> {
            &&& r matches Ok(displaced) && displaced@ == old(warden).peer_id@
            &&& *final(warden) == (Warden { peer_id: new_peer_id, ..*old(warden) })
        },
{
    if !pubkey_eq(caller, &config.authority) {
        return Err(ArkhamErrorCode::UnauthorizedAdminAction);
    }
    if !check_peer_id(&new_peer_id) {
        return Err(ArkhamErrorCode::InvalidPeerId);
    }
    let old_peer_id = warden.peer_id.clone();
    warden.peer_id = new_peer_id;
    Ok(old_peer_id)
}

/// Rebinds the oracle authority on a configuration record that predates it:
/// only the protocol authority may call.
pub fn migrate_protocol_config_handler(
    config: &mut ProtocolConfig,
    caller: &Pubkey,
    new_oracle_authority: &Pubkey,
) -> (r: Result<(), ArkhamErrorCode>)
    ensures
        caller@ != old(config).authority@ ==> r == Err::<(), ArkhamErrorCode>(
            ArkhamErrorCode::UnauthorizedAdminAction,
        ) && *final(config) == *old(config),
        caller@ == old(config).authority@ ==> r == Ok::<(), ArkhamErrorCode>(()) && *final(config)
            == (ProtocolConfig { oracle_authority: *new_oracle_authority, ..*old(config) }),
        old(config).wf() ==> final(config).wf(),
{
    if !pubkey_eq(caller, &config.authority) {
        return Err(ArkhamErrorCode::UnauthorizedAdminAction);
    }
    config.oracle_authority = *new_oracle_authority;
    Ok(())
}

} // verus!
