use vstd::prelude::*;
use crate::Pubkey;

verus! {

/// The closed set of tokens a Warden may stake.
#[derive(Clone, Copy, Debug, PartialEq, Eq, Structural)]
pub enum StakeToken {
    Sol,
    Usdc,
    Usdt,
}

/// Stake-value classification; a higher tier earns a higher payout multiplier.
#[derive(Clone, Copy, Debug, PartialEq, Eq, Structural)]
pub enum Tier {
    Bronze,
    Silver,
    Gold,
}

/// The rank of a tier: Bronze 0, Silver 1, Gold 2.
pub open spec fn tier_rank(t: Tier) -> int {
    match t {
        Tier::Bronze => 0,
        Tier::Silver => 1,
        Tier::Gold => 2,
    }
}

/// The decimal scale of a stake token: how many base units make one token.
pub open spec fn token_scale(t: StakeToken) -> int {
    match t {
        StakeToken::Sol => 1_000_000_000,
        StakeToken::Usdc => 1_000_000,
        StakeToken::Usdt => 1_000_000,
    }
}

/// A per-region rate premium, in basis points.
#[derive(Clone, Copy, Debug, PartialEq, Eq, Structural)]
pub struct GeoPremium {
    pub region_code: u8,
    pub premium_bps: u16,
}

/// The reputation formula's weights, in basis points.
#[derive(Clone, Copy, Debug, Default, PartialEq, Eq, Structural)]
pub struct ReputationMetrics {
    pub connection_success_weight: u16,
    pub uptime_weight: u16,
    pub bandwidth_contribution_weight: u16,
    pub recency_weight: u16,
}

/// Whether two entries of a premium table name the same region.
pub open spec fn has_duplicate_region(premiums: Seq<GeoPremium>) -> bool {
    exists|i: int, j: int|
        0 <= i < j < premiums.len() && premiums[i].region_code == premiums[j].region_code
}

/// Whether some premium of a table exceeds the 500% bound.
pub open spec fn has_excessive_premium(premiums: Seq<GeoPremium>) -> bool {
    exists|i: int| 0 <= i < premiums.len() && premiums[i].premium_bps > 50000
}

/// Returns true when two entries of the table share a region code.
pub(crate) fn find_duplicate_region(premiums: &Vec<GeoPremium>) -> (r: bool)
    ensures
        r == has_duplicate_region(premiums@),
{
    let mut i: usize = 0;
    while i < premiums.len()
        invariant
            0 <= i <= premiums@.len(),
            forall|a: int, b: int|
                0 <= a < b < premiums@.len() && a < i ==> premiums@[a].region_code
                    != premiums@[b].region_code,
        decreases premiums@.len() - i,
    {
        let mut j: usize = i + 1;
        while j < premiums.len()
            invariant
                0 <= i < j <= premiums@.len(),
                forall|b: int| i < b < j ==> premiums@[i as int].region_code
                    != premiums@[b].region_code,
            decreases premiums@.len() - j,
        {
            if premiums[i].region_code == premiums[j].region_code {
                return true;
            }
            j += 1;
        }
        i += 1;
    }
    false
}

/// Returns true when some premium of the table exceeds the 500% bound.
pub(crate) fn find_excessive_premium(premiums: &Vec<GeoPremium>) -> (r: bool)
    ensures
        r == has_excessive_premium(premiums@),
{
    let mut i: usize = 0;
    while i < premiums.len()
        invariant
            0 <= i <= premiums@.len(),
            forall|a: int| 0 <= a < i ==> premiums@[a].premium_bps <= 50000,
        decreases premiums@.len() - i,
    {
        if premiums[i].premium_bps > 50000 {
            return true;
        }
        i += 1;
    }
    false
}

/// Protocol-wide parameters; a single record mutated only by the authority.
#[derive(Clone, Debug, PartialEq, Eq)]
pub struct ProtocolConfig {
    pub authority: Pubkey,
    pub treasury: Pubkey,
    pub arkham_token_mint: Pubkey,
    pub oracle_authority: Pubkey,
    pub base_rate_per_mb: u64,
    pub protocol_fee_bps: u16,
    pub tier_thresholds: [u64; 3],
    pub tier_multipliers: [u16; 3],
    pub tokens_per_5gb: u64,
    pub geo_premiums: Vec<GeoPremium>,
    pub reputation_updater: Pubkey,
}

impl ProtocolConfig {
    /// What the configuration validators enforce: fee within 100%, thresholds
    /// ascending, multipliers at most 5x, premium table with unique region
    /// codes and every premium at most 500%.
    pub open spec fn wf(self) -> bool {
        &&& self.protocol_fee_bps <= 10000
        &&& self.tier_thresholds[0] <= self.tier_thresholds[1]
        &&& self.tier_thresholds[1] <= self.tier_thresholds[2]
        &&& self.tier_multipliers[0] <= 50000
        &&& self.tier_multipliers[1] <= 50000
        &&& self.tier_multipliers[2] <= 50000
        &&& !has_duplicate_region(self.geo_premiums@)
        &&& !has_excessive_premium(self.geo_premiums@)
    }

    /// Tests the configuration invariant on a record read from storage.
    pub fn is_well_formed(&self) -> (r: bool)
        ensures
            r == self.wf(),
    {
        self.protocol_fee_bps <= 10000 && self.tier_thresholds[0] <= self.tier_thresholds[1]
            && self.tier_thresholds[1] <= self.tier_thresholds[2] && self.tier_multipliers[0]
            <= 50000 && self.tier_multipliers[1] <= 50000 && self.tier_multipliers[2] <= 50000
            && !find_duplicate_region(&self.geo_premiums) && !find_excessive_premium(
            &self.geo_premiums,
        )
    }
}

/// A stake-backed bandwidth provider.
#[derive(Clone, Debug, PartialEq, Eq)]
pub struct Warden {
    pub authority: Pubkey,
    pub peer_id: String,
    pub stake_token: StakeToken,
    pub stake_amount: u64,
    pub stake_value_usd: u64,
    pub tier: Tier,
    pub staked_at: i64,
    pub unstake_requested_at: Option<i64>,
    pub total_bandwidth_served: u64,
    pub total_earnings: u64,
    pub pending_claims: u64,
    pub arkham_tokens_earned: u64,
    pub reputation_score: u32,
    pub successful_connections: u64,
    pub failed_connections: u64,
    pub uptime_percentage: u16,
    pub last_active: i64,
    pub region_code: u8,
    pub ip_hash: [u8; 32],
    pub premium_pool_rank: Option<u16>,
    pub active_connections: u8,
}

impl Warden {
    /// Holds at every commit boundary: the trust score stays within its scale
    /// and the activity timestamps are genuine (non-negative) clock readings.
    pub open spec fn wf(self) -> bool {
        &&& self.reputation_score <= 10000
        &&& 0 <= self.staked_at
        &&& 0 <= self.last_active
        &&& match self.unstake_requested_at {
            Some(t) => 0 <= t,
            None => true,
        }
    }

    /// Tests the commit-boundary invariant on a record read from storage.
    pub fn is_well_formed(&self) -> (r: bool)
        ensures
            r == self.wf(),
    {
        self.reputation_score <= 10000 && 0 <= self.staked_at && 0 <= self.last_active && (
        match self.unstake_requested_at {
            Some(t) => 0 <= t,
            None => true,
        })
    }
}

/// A bandwidth consumer and its escrow account.
#[derive(Clone, Debug, PartialEq, Eq)]
pub struct Seeker {
    pub authority: Pubkey,
    pub escrow_balance: u64,
    pub private_escrow: Option<Pubkey>,
    pub total_bandwidth_consumed: u64,
    pub total_spent: u64,
    pub active_connections: u8,
    pub premium_expires_at: Option<i64>,
}

/// A dual-signed attestation of consumed megabytes for a time window.
#[derive(Clone, Copy, Debug, PartialEq, Eq)]
pub struct BandwidthProof {
    pub timestamp: i64,
    pub mb_consumed: u64,
    pub seeker_signature: [u8; 64],
    pub warden_signature: [u8; 64],
}

/// One billed session between a Seeker and a Warden.
#[derive(Clone, Debug, PartialEq, Eq)]
pub struct Connection {
    pub seeker: Pubkey,
    pub warden: Pubkey,
    pub started_at: i64,
    pub last_proof_at: i64,
    pub bandwidth_consumed: u64,
    pub bandwidth_proofs: Vec<BandwidthProof>,
    pub amount_escrowed: u64,
    pub amount_paid: u64,
    pub rate_per_mb: u64,
    pub warden_multiplier: u16,
}

impl Connection {
    /// Holds at every commit boundary: payments never exceed the escrow, the
    /// proof history is bounded at ten entries, and every recorded proof passed
    /// the range check when it was accepted.
    pub open spec fn wf(self) -> bool {
        &&& self.amount_paid <= self.amount_escrowed
        &&& self.bandwidth_proofs@.len() <= 10
        &&& forall|i: int|
            0 <= i < self.bandwidth_proofs@.len() ==> {
                &&& 0 < #[trigger] self.bandwidth_proofs@[i].mb_consumed
                &&& self.bandwidth_proofs@[i].mb_consumed <= 10000
            }
    }

    /// Tests the commit-boundary invariant on a record read from storage.
    pub fn is_well_formed(&self) -> (r: bool)
        ensures
            r == self.wf(),
    {
        if !(self.amount_paid <= self.amount_escrowed && self.bandwidth_proofs.len() <= 10) {
            return false;
        }
        let mut i: usize = 0;
        while i < self.bandwidth_proofs.len()
            invariant
                0 <= i <= self.bandwidth_proofs@.len(),
                forall|j: int|
                    0 <= j < i ==> {
                        &&& 0 < #[trigger] self.bandwidth_proofs@[j].mb_consumed
                        &&& self.bandwidth_proofs@[j].mb_consumed <= 10000
                    },
            decreases self.bandwidth_proofs@.len() - i,
        {
            let mb = self.bandwidth_proofs[i].mb_consumed;
            if mb == 0 || mb > 10000 {
                return false;
            }
            i += 1;
        }
        true
    }
}

} // verus!
