//! The data model: the ledger singleton, the per-user profile, and the
//! per-redemption request record, together with their constructors and the
//! loyalty-tier derivation.

use vstd::prelude::*;

use crate::bytes32::Bytes32;

verus! {

/// Purchases above this many units in one call are refused.
pub const PER_CALL_PURCHASE_CAP: u64 = 1000;

/// Issuance is frozen once the last reserve proof is this many seconds old.
pub const STALENESS_WINDOW_SECS: u64 = 172800;

/// Points above this threshold reach at least the Silver tier.
pub const SILVER_THRESHOLD: u64 = 100;

/// Points above this threshold reach at least the Gold tier.
pub const GOLD_THRESHOLD: u64 = 500;

/// Points above this threshold reach the Platinum tier.
pub const PLATINUM_THRESHOLD: u64 = 2000;

/// Points awarded to a fulfiller for one confirmed delivery.
pub const FULFILLMENT_REWARD_POINTS: u64 = 5;

/// The loyalty classification derived from accumulated points.
#[derive(Clone, Copy, Debug, PartialEq, Eq, Structural)]
pub enum Tier {
    Bronze,
    Silver,
    Gold,
    Platinum,
}

/// The numeric rank of a tier; contracts state monotonicity over it.
pub open spec fn tier_rank(t: Tier) -> nat {
    match t {
        Tier::Bronze => 0,
        Tier::Silver => 1,
        Tier::Gold => 2,
        Tier::Platinum => 3,
    }
}

/// The tier that a points total justifies: thresholds are checked high to
/// low and are exclusive at the boundary.
pub open spec fn tier_for_points(points: u64) -> Tier {
    if points > PLATINUM_THRESHOLD {
        Tier::Platinum
    } else if points > GOLD_THRESHOLD {
        Tier::Gold
    } else if points > SILVER_THRESHOLD {
        Tier::Silver
    } else {
        Tier::Bronze
    }
}

/// Computes the tier a points total justifies.
pub fn tier_for(points: u64) -> (t: Tier)
    ensures
        t == tier_for_points(points),
{
    if points > PLATINUM_THRESHOLD {
        Tier::Platinum
    } else if points > GOLD_THRESHOLD {
        Tier::Gold
    } else if points > SILVER_THRESHOLD {
        Tier::Silver
    } else {
        Tier::Bronze
    }
}

/// The status of a redemption request. Transitions are strictly forward:
/// Pending may become Claimed or Cancelled, Claimed may become Confirmed or
/// Cancelled, and Confirmed and Cancelled are terminal.
#[derive(Clone, Copy, Debug, PartialEq, Eq, Structural)]
pub enum RedemptionStatus {
    Pending,
    Claimed,
    Confirmed,
    Cancelled,
}

/// The singleton ledger record: one per deployment.
///
/// All timestamps are seconds of the platform clock. `total_supply` is
/// bounded above by `proven_reserves` immediately after every mint;
/// `total_burned` only ever grows.
#[derive(Clone, Copy, Debug, PartialEq, Eq, Structural)]
pub struct ProtocolState {
    pub authority: Bytes32,
    pub operator: Bytes32,
    pub w3b_mint: Bytes32,
    pub treasury: Bytes32,
    pub total_supply: u64,
    pub total_burned: u64,
    pub current_merkle_root: Bytes32,
    pub proven_reserves: u64,
    pub last_root_update: u64,
    pub last_proof_timestamp: u64,
    pub w3b_price_lamports: u64,
    pub sol_receiver: Bytes32,
    pub yield_apy_bps: u16,
    pub total_yield_distributed: u64,
    pub last_yield_distribution: u64,
    pub is_paused: bool,
    pub bump: u8,
}

/// The state a fresh deployment starts in: the authority holds every role,
/// every counter is zero, and no attestation or price is on record.
pub open spec fn initial_state(
    authority: Bytes32,
    w3b_mint: Bytes32,
    treasury: Bytes32,
    bump: u8,
) -> ProtocolState {
    ProtocolState {
        authority,
        operator: authority,
        w3b_mint,
        treasury,
        sol_receiver: authority,
        total_supply: 0,
        total_burned: 0,
        current_merkle_root: Bytes32::zero_spec(),
        proven_reserves: 0,
        last_root_update: 0,
        last_proof_timestamp: 0,
        w3b_price_lamports: 0,
        yield_apy_bps: 0,
        total_yield_distributed: 0,
        last_yield_distribution: 0,
        is_paused: false,
        bump,
    }
}

/// Creates the ledger singleton for a new deployment.
pub fn initialize_v2(
    authority: Bytes32,
    w3b_mint: Bytes32,
    treasury: Bytes32,
    bump: u8,
) -> (s: ProtocolState)
    ensures
        s == initial_state(authority, w3b_mint, treasury, bump),
{
    ProtocolState {
        authority,
        operator: authority,
        w3b_mint,
        treasury,
        sol_receiver: authority,
        total_supply: 0,
        total_burned: 0,
        current_merkle_root: Bytes32::zero(),
        proven_reserves: 0,
        last_root_update: 0,
        last_proof_timestamp: 0,
        w3b_price_lamports: 0,
        yield_apy_bps: 0,
        total_yield_distributed: 0,
        last_yield_distribution: 0,
        is_paused: false,
        bump,
    }
}

/// One user's loyalty record, created lazily and never deleted.
#[derive(Clone, Copy, Debug, PartialEq, Eq, Structural)]
pub struct UserProfile {
    pub user: Bytes32,
    pub total_volume: u64,
    pub points: u64,
    pub tier: Tier,
    pub total_redeemed: u64,
    pub total_fulfilled: u64,
    pub fulfiller_rewards: u64,
    pub bump: u8,
}

/// A profile is well formed when its tier never overstates what its points
/// justify; points are monotone, so the justified tier only rises.
pub open spec fn profile_wf(p: UserProfile) -> bool {
    tier_rank(p.tier) <= tier_rank(tier_for_points(p.points))
}

/// The profile a user starts with: no points, Bronze tier, zero counters.
pub open spec fn initial_profile(user: Bytes32, bump: u8) -> UserProfile {
    UserProfile {
        user,
        total_volume: 0,
        points: 0,
        tier: Tier::Bronze,
        total_redeemed: 0,
        total_fulfilled: 0,
        fulfiller_rewards: 0,
        bump,
    }
}

/// Creates a user's loyalty profile.
pub fn init_user_profile(user: Bytes32, bump: u8) -> (p: UserProfile)
    ensures
        p == initial_profile(user, bump),
        profile_wf(p),
{
    UserProfile {
        user,
        total_volume: 0,
        points: 0,
        tier: Tier::Bronze,
        total_redeemed: 0,
        total_fulfilled: 0,
        fulfiller_rewards: 0,
        bump,
    }
}

/// One burn-to-redeem request, keyed by requester and caller-chosen id.
#[derive(Clone, Copy, Debug, PartialEq, Eq, Structural)]
pub struct RedemptionRequest {
    pub user: Bytes32,
    pub request_id: u64,
    pub amount: u64,
    pub status: RedemptionStatus,
    pub fulfiller: Bytes32,
    pub created_at: u64,
    pub claimed_at: u64,
    pub confirmed_at: u64,
    pub bump: u8,
}

/// The request a burn creates: Pending, unclaimed, stamped with the burn time.
pub open spec fn new_request(
    user: Bytes32,
    request_id: u64,
    amount: u64,
    now: u64,
    bump: u8,
) -> RedemptionRequest {
    RedemptionRequest {
        user,
        request_id,
        amount,
        status: RedemptionStatus::Pending,
        fulfiller: Bytes32::zero_spec(),
        created_at: now,
        claimed_at: 0,
        confirmed_at: 0,
        bump,
    }
}

} // verus!
