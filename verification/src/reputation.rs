use vstd::prelude::*;
use vstd::arithmetic::div_mod::{lemma_div_is_ordered, lemma_div_multiples_vanish};
use vstd::arithmetic::mul::lemma_mul_inequality;
use crate::errors::ArkhamErrorCode;
use crate::state::{ProtocolConfig, Warden};
use crate::{pubkey_eq, Pubkey};

verus! {

/// Reports a recomputed reputation score.
#[derive(Clone, Copy, Debug, PartialEq, Eq)]
pub struct ReputationUpdated {
    pub warden: Pubkey,
    pub new_score: u32,
    pub uptime_report: u16,
    pub connection_success: bool,
}

/// Reports a refreshed premium-pool ranking batch.
#[derive(Clone, Copy, Debug, PartialEq, Eq)]
pub struct PremiumPoolRankingsUpdated {
    pub updater: Pubkey,
    pub top_wardens_count: u32,
}

/// The connection success rate in basis points: successes over all outcomes,
/// flooring; a Warden with no recorded outcome counts as perfect.
pub open spec fn success_rate_of(successful: u64, failed: u64) -> int {
    if successful + failed > 0 {
        (successful * 10000) / (successful + failed)
    } else {
        10000
    }
}

/// Whole days since the Warden was last active.
pub open spec fn days_inactive_of(last_active: i64, now: i64) -> int {
    (now - last_active) / 86400
}

/// The activity score: full for a Warden active today, falling linearly to
/// zero over seven days of inactivity, zero beyond.
pub open spec fn activity_score_of(days_inactive: int) -> int {
    if days_inactive <= 7 {
        10000 - (days_inactive * 10000) / 7
    } else {
        0
    }
}

/// The decay penalty: none within seven days of activity, then one hundred
/// points per further day, capped at five thousand.
pub open spec fn decay_penalty_of(days_inactive: int) -> int {
    if days_inactive <= 7 {
        0
    } else if (days_inactive - 7) * 100 > 5000 {
        5000
    } else {
        (days_inactive - 7) * 100
    }
}

/// The reputation score: four pre-normalized components, weighted 40% success
/// rate, 30% reported uptime, 20% recent activity, 10% decay, the sum capped
/// at ten thousand.
pub open spec fn reputation_score_of(
    successful: u64,
    failed: u64,
    uptime_bps: u16,
    days_inactive: int,
) -> int {
    let total = (success_rate_of(successful, failed) * 40) / 100 + (uptime_bps * 30) / 100 + (
    activity_score_of(days_inactive) * 20) / 100 + ((10000 - decay_penalty_of(days_inactive)) * 10)
        / 100;
    if total > 10000 {
        10000
    } else {
        total
    }
}

/// Recomputes the Warden's trust score from its counters, its reported uptime,
/// and the time since it was last active. The score always lies within
/// [0, 10000]; the only failure is a connection total beyond the 64-bit range.
pub fn calculate_reputation_score(warden: &Warden, current_timestamp: i64) -> (r: Result<
    u32,
    ArkhamErrorCode,
>)
    requires
        0 <= warden.last_active <= current_timestamp,
    ensures
        warden.successful_connections + warden.failed_connections > u64::MAX ==> r == Err::<
            u32,
            ArkhamErrorCode,
        >(ArkhamErrorCode::ArithmeticOverflow),
        warden.successful_connections + warden.failed_connections <= u64::MAX ==> r == Ok::<
            u32,
            ArkhamErrorCode,
        >(
            reputation_score_of(
                warden.successful_connections,
                warden.failed_connections,
                warden.uptime_percentage,
                days_inactive_of(warden.last_active, current_timestamp),
            ) as u32,
        ),
        r matches Ok(score) ==> score <= 10000,
{
    let total_connections = match warden.successful_connections.checked_add(
        warden.failed_connections,
    ) {
        Some(v) => v,
        None => {
            return Err(ArkhamErrorCode::ArithmeticOverflow);
        },
    };
    let success_rate: u32 = if total_connections > 0 {
        proof {
            lemma_mul_inequality(
                warden.successful_connections as int,
                total_connections as int,
                10000,
            );
            lemma_div_is_ordered(
                warden.successful_connections * 10000,
                total_connections * 10000,
                total_connections as int,
            );
            lemma_div_multiples_vanish(10000, total_connections as int);
            assert(total_connections * 10000 == (total_connections as int) * 10000);
            assert((warden.successful_connections * 10000) / (total_connections as int) <= 10000);
        }
        let success_bps = ((warden.successful_connections as u128) * 10000) / (total_connections
            as u128);
        let success_bps = success_bps as u32;
        if success_bps > 10000 {
            10000
        } else {
            success_bps
        }
    } else {
        10000
    };
    let success_contribution: u32 = success_rate * 40 / 100;
    let uptime_contribution: u32 = (warden.uptime_percentage as u32) * 30 / 100;
    let days_since_active: i64 = (current_timestamp - warden.last_active) / 86400;
    let activity_score: u32 = if days_since_active <= 7 {
        10000 - (days_since_active as u32) * 10000 / 7
    } else {
        0
    };
    let bandwidth_contribution: u32 = activity_score * 20 / 100;
    let recency_penalty: u32 = if days_since_active <= 7 {
        0
    } else {
        let days_beyond = days_since_active - 7;
        if days_beyond >= 50 {
            5000
        } else {
            (days_beyond as u32) * 100
        }
    };
    let recency_contribution: u32 = (10000 - recency_penalty) * 10 / 100;
    let total_contribution = success_contribution + uptime_contribution + bandwidth_contribution
        + recency_contribution;
    if total_contribution > 10000 {
        Ok(10000)
    } else {
        Ok(total_contribution)
    }
}

/// One reputation update's outcome: refused unless the caller is the
/// configured updater; the reported outcome bumps the matching counter, the
/// uptime report overwrites the stored one, and the score is recomputed from
/// the updated counters against the time the Warden was last active.
pub open spec fn spec_update_reputation(
    config: ProtocolConfig,
    warden: Warden,
    caller: Pubkey,
    connection_success: bool,
    now: i64,
) -> Result<(u64, u64), ArkhamErrorCode> {
    if caller@ != config.reputation_updater@ {
        Err(ArkhamErrorCode::UnauthorizedReputationUpdate)
    } else {
        let new_successful = if connection_success {
            warden.successful_connections + 1
        } else {
            warden.successful_connections as int
        };
        let new_failed = if connection_success {
            warden.failed_connections as int
        } else {
            warden.failed_connections + 1
        };
        if new_successful > u64::MAX || new_failed > u64::MAX {
            Err(ArkhamErrorCode::ArithmeticOverflow)
        } else if new_successful + new_failed > u64::MAX {
            Err(ArkhamErrorCode::ArithmeticOverflow)
        } else {
            Ok((new_successful as u64, new_failed as u64))
        }
    }
}

/// Applies one externally reported connection outcome to the Warden: bumps the
/// success or failure counter, overwrites the uptime report, recomputes the
/// decaying trust score, and stamps the Warden active now. Only the configured
/// reputation updater may call; on failure nothing changes.
pub fn update_reputation_handler(
    config: &ProtocolConfig,
    warden: &mut Warden,
    caller: &Pubkey,
    connection_success: bool,
    uptime_report: u16,
    now: i64,
) -> (r: Result<u32, ArkhamErrorCode>)
    requires
        old(warden).wf(),
        old(warden).last_active <= now,
    ensures
        spec_update_reputation(*config, *old(warden), *caller, connection_success, now) matches Err(
            e,
        ) ==> r == Err::<u32, ArkhamErrorCode>(e) && *final(warden) == *old(warden),
        spec_update_reputation(
            *config,
            *old(warden),
            *caller,
            connection_success,
            now,
        ) matches Ok(counters) ==> {
            &&& r == Ok::<u32, ArkhamErrorCode>(
                reputation_score_of(
                    counters.0,
                    counters.1,
                    uptime_report,
                    days_inactive_of(old(warden).last_active, now),
                ) as u32,
            )
            &&& *final(warden) == (Warden {
                successful_connections: counters.0,
                failed_connections: counters.1,
                uptime_percentage: uptime_report,
                reputation_score: reputation_score_of(
                    counters.0,
                    counters.1,
                    uptime_report,
                    days_inactive_of(old(warden).last_active, now),
                ) as u32,
                last_active: now,
                ..*old(warden)
            })
        },
        final(warden).wf(),
{
    if !pubkey_eq(caller, &config.reputation_updater) {
        return Err(ArkhamErrorCode::UnauthorizedReputationUpdate);
    }
    let mut new_successful = warden.successful_connections;
    let mut new_failed = warden.failed_connections;
    if connection_success {
        new_successful = match warden.successful_connections.checked_add(1) {
            Some(v) => v,
            None => {
                return Err(ArkhamErrorCode::ArithmeticOverflow);
            },
        };
    } else {
        new_failed = match warden.failed_connections.checked_add(1) {
            Some(v) => v,
            None => {
                return Err(ArkhamErrorCode::ArithmeticOverflow);
            },
        };
    }
    match new_successful.checked_add(new_failed) {
        Some(_) => {},
        None => {
            return Err(ArkhamErrorCode::ArithmeticOverflow);
        },
    }
    warden.successful_connections = new_successful;
    warden.failed_connections = new_failed;
    warden.uptime_percentage = uptime_report;
    let new_reputation = match calculate_reputation_score(warden, now) {
        Ok(v) => v,
        Err(e) => {
            return Err(e);
        },
    };
    warden.reputation_score = new_reputation;
    warden.last_active = now;
    Ok(new_reputation)
}

/// Acknowledges a premium-pool ranking batch: only the configured reputation
/// updater may submit one; the ranking itself is computed by an external batch
/// collaborator, and this call only reports how many Wardens it covered.
pub fn update_premium_pool_rankings_handler(
    config: &ProtocolConfig,
    caller: &Pubkey,
    top_wardens: &Vec<Pubkey>,
) -> (r: Result<u32, ArkhamErrorCode>)
    requires
        top_wardens@.len() <= u32::MAX,
    ensures
        caller@ != config.reputation_updater@ ==> r == Err::<u32, ArkhamErrorCode>(
            ArkhamErrorCode::UnauthorizedReputationUpdate,
        ),
        caller@ == config.reputation_updater@ ==> r == Ok::<u32, ArkhamErrorCode>(
            top_wardens@.len() as u32,
        ),
{
    if !pubkey_eq(caller, &config.reputation_updater) {
        return Err(ArkhamErrorCode::UnauthorizedReputationUpdate);
    }
    Ok(top_wardens.len() as u32)
}

} // verus!
