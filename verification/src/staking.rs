use vstd::prelude::*;
use vstd::arithmetic::mul::lemma_mul_upper_bound;
use vstd::slice::slice_subrange;
use crate::bandwidth::InstructionsSysvar;
use crate::bytes::{bytes_eq, i64_le_bytes, push_i64_le, push_u64_le, u64_le_bytes};
use crate::digest::{keccak256, keccak_of};
use crate::errors::{arkham_code_of_oracle_error, ArkhamErrorCode, OracleError};
use crate::state::{ProtocolConfig, StakeToken, Tier, Warden, token_scale};
use crate::{pubkey_eq, Pubkey, ED25519_PROGRAM_ID, INSTRUCTIONS_SYSVAR_ID};

verus! {

/// The bytes the oracle signs for one price attestation, before hashing:
/// price then timestamp, both little-endian.
pub open spec fn oracle_message_bytes(price: u64, timestamp: i64) -> Seq<u8> {
    u64_le_bytes(price) + i64_le_bytes(timestamp)
}

/// Builds the deterministic 32-byte message the oracle must sign for a price
/// attestation: the Keccak-256 digest of the price and timestamp.
pub fn create_oracle_message(price: u64, timestamp: i64) -> (r: Vec<u8>)
    ensures
        r@ == keccak_of(oracle_message_bytes(price, timestamp)),
        r@.len() == 32,
{
    let mut message: Vec<u8> = Vec::new();
    push_u64_le(&mut message, price);
    push_i64_le(&mut message, timestamp);
    assert(message@ =~= oracle_message_bytes(price, timestamp));
    keccak256(&message)
}

/// What checking the oracle's Ed25519-program instruction yields: the account
/// must be the instructions sysvar, the indexed instruction must exist and
/// belong to the Ed25519 program, and its data must embed exactly the expected
/// signature (at byte 16), oracle public key, and message.
pub open spec fn spec_verify_oracle_at(
    sysvar: InstructionsSysvar,
    index: int,
    message: Seq<u8>,
    signature: Seq<u8>,
    oracle_pubkey: Seq<u8>,
) -> Result<(), OracleError> {
    if sysvar.key@ != INSTRUCTIONS_SYSVAR_ID@ {
        Err(OracleError::InvalidInstructionsSysvar)
    } else if !(0 <= index && index < sysvar.instructions@.len()) {
        Err(OracleError::Ed25519InstructionNotFound)
    } else if sysvar.instructions@[index].program_id@ != ED25519_PROGRAM_ID@ {
        Err(OracleError::InvalidEd25519Instruction)
    } else {
        let data = sysvar.instructions@[index].data@;
        if data.len() < 108 + message.len() {
            Err(OracleError::InvalidEd25519Data)
        } else if data.len() < 112 + message.len() {
            Err(OracleError::InvalidEd25519Data)
        } else if data.subrange(16, 80) != signature {
            Err(OracleError::SignatureMismatch)
        } else if data.subrange(80, 112) != oracle_pubkey {
            Err(OracleError::PublicKeyMismatch)
        } else if data.subrange(112, 112 + message.len() as int) != message {
            Err(OracleError::MessageMismatch)
        } else {
            Ok(())
        }
    }
}

/// Confirms that the transaction carries an Ed25519-program instruction at
/// `instruction_index` whose data embeds exactly the oracle's message,
/// signature and public key; the Ed25519 program itself already verified the
/// signature cryptographically before this program ran.
pub fn verify_oracle_signature_via_sysvar(
    instructions_sysvar: &InstructionsSysvar,
    message: &[u8],
    signature: &[u8; 64],
    oracle_pubkey: &Pubkey,
    instruction_index: u16,
) -> (r: Result<(), OracleError>)
    requires
        message@.len() + 112 <= usize::MAX,
    ensures
        r == spec_verify_oracle_at(
            *instructions_sysvar,
            instruction_index as int,
            message@,
            signature@,
            oracle_pubkey@,
        ),
{
    if !pubkey_eq(&instructions_sysvar.key, &INSTRUCTIONS_SYSVAR_ID) {
        return Err(OracleError::InvalidInstructionsSysvar);
    }
    let index = instruction_index as usize;
    if index >= instructions_sysvar.instructions.len() {
        return Err(OracleError::Ed25519InstructionNotFound);
    }
    let ed25519_ix = &instructions_sysvar.instructions[index];
    if !pubkey_eq(&ed25519_ix.program_id, &ED25519_PROGRAM_ID) {
        return Err(OracleError::InvalidEd25519Instruction);
    }
    let data = ed25519_ix.data.as_slice();
    if data.len() < 108 + message.len() {
        return Err(OracleError::InvalidEd25519Data);
    }
    if data.len() < 112 + message.len() {
        return Err(OracleError::InvalidEd25519Data);
    }
    let ix_signature = slice_subrange(data, 16, 80);
    let ix_pubkey = slice_subrange(data, 80, 112);
    let ix_message = slice_subrange(data, 112, 112 + message.len());
    if !bytes_eq(ix_signature, signature.as_slice()) {
        return Err(OracleError::SignatureMismatch);
    }
    if !bytes_eq(ix_pubkey, oracle_pubkey.as_slice()) {
        return Err(OracleError::PublicKeyMismatch);
    }
    if !bytes_eq(ix_message, message) {
        return Err(OracleError::MessageMismatch);
    }
    Ok(())
}

/// The USD value (micro-USD) of a stake: amount times price, scaled down by
/// the token's decimals, flooring.
pub open spec fn stake_value_usd(stake_token: StakeToken, stake_amount: u64, oracle_price: u64) -> int {
    (stake_amount * oracle_price) / token_scale(stake_token)
}

/// Computes the USD value of a stake from the oracle price with a 128-bit
/// intermediate; a value beyond the 64-bit range is an overflow error.
pub fn calculate_stake_value_usd(
    stake_token: &StakeToken,
    stake_amount: u64,
    oracle_price: u64,
) -> (r: Result<u64, ArkhamErrorCode>)
    ensures
        stake_value_usd(*stake_token, stake_amount, oracle_price) <= u64::MAX ==> r == Ok::<
            u64,
            ArkhamErrorCode,
        >(stake_value_usd(*stake_token, stake_amount, oracle_price) as u64),
        stake_value_usd(*stake_token, stake_amount, oracle_price) > u64::MAX ==> r == Err::<
            u64,
            ArkhamErrorCode,
        >(ArkhamErrorCode::ArithmeticOverflow),
{
    let scale: u64 = match stake_token {
        StakeToken::Sol => 1_000_000_000,
        StakeToken::Usdc => 1_000_000,
        StakeToken::Usdt => 1_000_000,
    };
    proof {
        lemma_mul_upper_bound(
            stake_amount as int,
            u64::MAX as int,
            oracle_price as int,
            u64::MAX as int,
        );
    }
    let product: u128 = (stake_amount as u128) * (oracle_price as u128);
    let usd_value: u128 = product / (scale as u128);
    if usd_value > u64::MAX as u128 {
        Err(ArkhamErrorCode::ArithmeticOverflow)
    } else {
        Ok(usd_value as u64)
    }
}

/// The tier a stake value earns against the configured thresholds: Gold at or
/// above the highest, then Silver, then Bronze; below the lowest, none.
pub open spec fn spec_tier_for(usd_value: u64, thresholds: [u64; 3]) -> Option<Tier> {
    if usd_value >= thresholds[2] {
        Some(Tier::Gold)
    } else if usd_value >= thresholds[1] {
        Some(Tier::Silver)
    } else if usd_value >= thresholds[0] {
        Some(Tier::Bronze)
    } else {
        None
    }
}

/// Classifies a stake's USD value against the configured tier thresholds.
pub fn classify_tier(usd_value: u64, thresholds: &[u64; 3]) -> (r: Option<Tier>)
    ensures
        r == spec_tier_for(usd_value, *thresholds),
{
    if usd_value >= thresholds[2] {
        Some(Tier::Gold)
    } else if usd_value >= thresholds[1] {
        Some(Tier::Silver)
    } else if usd_value >= thresholds[0] {
        Some(Tier::Bronze)
    } else {
        None
    }
}

/// The outcome of staking a new Warden: a stale price fails first, then a
/// failed oracle check (surfaced as its staking error code), then an
/// out-of-range USD value, then a stake below the lowest tier; otherwise the
/// fully initialized record, starting with a perfect score.
pub open spec fn spec_initialize_warden(
    config: ProtocolConfig,
    sysvar: InstructionsSysvar,
    authority: Pubkey,
    stake_token: StakeToken,
    stake_amount: u64,
    peer_id: String,
    region_code: u8,
    ip_hash: [u8; 32],
    price: u64,
    timestamp: i64,
    signature: [u8; 64],
    now: i64,
) -> Result<Warden, ArkhamErrorCode> {
    if now - timestamp > 300 {
        Err(ArkhamErrorCode::StalePrice)
    } else {
        let message = keccak_of(oracle_message_bytes(price, timestamp));
        match spec_verify_oracle_at(sysvar, 0, message, signature@, config.oracle_authority@) {
            Err(e) => Err(arkham_code_of_oracle_error(e)),
            Ok(()) => {
                if stake_value_usd(stake_token, stake_amount, price) > u64::MAX {
                    Err(ArkhamErrorCode::ArithmeticOverflow)
                } else {
                    let usd = stake_value_usd(stake_token, stake_amount, price) as u64;
                    match spec_tier_for(usd, config.tier_thresholds) {
                        None => Err(ArkhamErrorCode::InsufficientStake),
                        Some(tier) => Ok(
                            (Warden {
                                authority,
                                peer_id,
                                stake_token,
                                stake_amount,
                                stake_value_usd: usd,
                                tier,
                                staked_at: now,
                                unstake_requested_at: None,
                                total_bandwidth_served: 0,
                                total_earnings: 0,
                                pending_claims: 0,
                                arkham_tokens_earned: 0,
                                reputation_score: 10000,
                                successful_connections: 0,
                                failed_connections: 0,
                                uptime_percentage: 10000,
                                last_active: now,
                                region_code,
                                ip_hash,
                                premium_pool_rank: None,
                                active_connections: 0,
                            }),
                        ),
                    }
                }
            },
        }
    }
}

/// Validates an oracle price attestation, classifies the stake into a tier,
/// and produces the new Warden record. The caller performs the stake transfer
/// this result authorizes; nothing here moves funds.
pub fn initialize_warden_handler(
    config: &ProtocolConfig,
    instructions_sysvar: &InstructionsSysvar,
    authority: &Pubkey,
    stake_token: StakeToken,
    stake_amount: u64,
    peer_id: String,
    region_code: u8,
    ip_hash: [u8; 32],
    price: u64,
    timestamp: i64,
    signature: [u8; 64],
    now: i64,
) -> (r: Result<Warden, ArkhamErrorCode>)
    requires
        0 <= now,
        now - timestamp <= i64::MAX,
        now - timestamp >= i64::MIN,
    ensures
        r == spec_initialize_warden(
            *config,
            *instructions_sysvar,
            *authority,
            stake_token,
            stake_amount,
            peer_id,
            region_code,
            ip_hash,
            price,
            timestamp,
            signature,
            now,
        ),
        r matches Ok(w) ==> w.wf(),
{
    if now - timestamp > 300 {
        return Err(ArkhamErrorCode::StalePrice);
    }
    let oracle_message = create_oracle_message(price, timestamp);
    match verify_oracle_signature_via_sysvar(
        instructions_sysvar,
        oracle_message.as_slice(),
        &signature,
        &config.oracle_authority,
        0,
    ) {
        Err(error) => {
            return Err(ArkhamErrorCode::from(error));
        },
        Ok(()) => {},
    }
    let usd = match calculate_stake_value_usd(&stake_token, stake_amount, price) {
        Ok(v) => v,
        Err(e) => {
            return Err(e);
        },
    };
    let tier = match classify_tier(usd, &config.tier_thresholds) {
        Some(t) => t,
        None => {
            return Err(ArkhamErrorCode::InsufficientStake);
        },
    };
    Ok(
        Warden {
            authority: *authority,
            peer_id,
            stake_token,
            stake_amount,
            stake_value_usd: usd,
            tier,
            staked_at: now,
            unstake_requested_at: None,
            total_bandwidth_served: 0,
            total_earnings: 0,
            pending_claims: 0,
            arkham_tokens_earned: 0,
            reputation_score: 10000,
            successful_connections: 0,
            failed_connections: 0,
            uptime_percentage: 10000,
            last_active: now,
            region_code,
            ip_hash,
            premium_pool_rank: None,
            active_connections: 0,
        },
    )
}

/// Begins the unstaking cooldown: refused while any connection is active, or
/// while the reputation score is below 8000; otherwise only the
/// unstake-request timestamp changes, to the current time.
pub fn unstake_warden_handler(warden: &mut Warden, now: i64) -> (r: Result<(), ArkhamErrorCode>)
    requires
        old(warden).wf(),
        0 <= now,
    ensures
        old(warden).active_connections > 0 ==> r == Err::<(), ArkhamErrorCode>(
            ArkhamErrorCode::HasActiveConnections,
        ),
        old(warden).active_connections == 0 && old(warden).reputation_score < 8000 ==> r == Err::<
            (),
            ArkhamErrorCode,
        >(ArkhamErrorCode::ReputationTooLow),
        r matches Err(_) ==> *final(warden) == *old(warden),
        old(warden).active_connections == 0 && old(warden).reputation_score >= 8000 ==> r == Ok::<
            (),
            ArkhamErrorCode,
        >(()) && *final(warden) == (Warden { unstake_requested_at: Some(now), ..*old(warden) }),
        final(warden).wf(),
{
    if warden.active_connections > 0 {
        return Err(ArkhamErrorCode::HasActiveConnections);
    }
    if warden.reputation_score < 8000 {
        return Err(ArkhamErrorCode::ReputationTooLow);
    }
    warden.unstake_requested_at = Some(now);
    Ok(())
}

/// Releases the stake after the seven-day cooldown: the amount and token the
/// caller must transfer back to the owner before destroying the record.
#[derive(Clone, Copy, Debug, PartialEq, Eq)]
pub struct WardenUnstaked {
    pub authority: Pubkey,
    pub stake_amount: u64,
    pub stake_token: StakeToken,
}

/// Authorizes stake withdrawal once the cooldown has run: refused when no
/// unstake was requested or before 604800 seconds have passed since the
/// request; on success it names the transfer the caller must perform, after
/// which the Warden record is destroyed.
pub fn claim_unstake_handler(warden: &Warden, now: i64) -> (r: Result<
    WardenUnstaked,
    ArkhamErrorCode,
>)
    requires
        warden.wf(),
        warden.unstake_requested_at matches Some(t) ==> t + 604800 <= i64::MAX,
    ensures
        warden.unstake_requested_at is None ==> r == Err::<WardenUnstaked, ArkhamErrorCode>(
            ArkhamErrorCode::UnstakeNotRequested,
        ),
        warden.unstake_requested_at matches Some(t) && now < t + 604800 ==> r == Err::<
            WardenUnstaked,
            ArkhamErrorCode,
        >(ArkhamErrorCode::CooldownNotComplete),
        warden.unstake_requested_at matches Some(t) && now >= t + 604800 ==> r == Ok::<
            WardenUnstaked,
            ArkhamErrorCode,
        >(
            (WardenUnstaked {
                authority: warden.authority,
                stake_amount: warden.stake_amount,
                stake_token: warden.stake_token,
            }),
        ),
{
    let unstake_requested_at = match warden.unstake_requested_at {
        Some(t) => t,
        None => {
            return Err(ArkhamErrorCode::UnstakeNotRequested);
        },
    };
    if now < unstake_requested_at + 604800 {
        return Err(ArkhamErrorCode::CooldownNotComplete);
    }
    Ok(
        WardenUnstaked {
            authority: warden.authority,
            stake_amount: warden.stake_amount,
            stake_token: warden.stake_token,
        },
    )
}

} // verus!
