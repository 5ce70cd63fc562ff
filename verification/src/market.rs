//! The purchase and redemption state machine, and the loyalty accrual that
//! rides on it.
//!
//! A purchase swaps native currency for tokens; a burn opens a redemption
//! request that independent actors then move through a strictly forward
//! state machine: a fulfiller claims it, the operator confirms delivery,
//! the administrator may cancel before confirmation. Points accrual is
//! advisory bookkeeping and always saturates instead of failing.

use vstd::prelude::*;

use crate::auth::{is_authority, is_authority_spec, is_operator, is_operator_spec};
use crate::bytes32::Bytes32;
use crate::errors::W3BError;
use crate::events::{
    RedemptionCancelled, RedemptionClaimed, RedemptionConfirmed, TokensBurned, TokensPurchased,
};
use crate::state::{
    new_request, tier_for, tier_for_points, ProtocolState, RedemptionRequest, RedemptionStatus,
    UserProfile, FULFILLMENT_REWARD_POINTS, PER_CALL_PURCHASE_CAP, SILVER_THRESHOLD,
};

verus! {

/// Saturating addition: advisory counters cap at the integer maximum
/// instead of failing.
pub open spec fn sat_add(a: u64, b: u64) -> u64 {
    if a + b > u64::MAX {
        u64::MAX
    } else {
        (a + b) as u64
    }
}

/// The doubled point award a redemption earns, saturating.
pub open spec fn double_points(amount: u64) -> u64 {
    if 2 * amount > u64::MAX {
        u64::MAX
    } else {
        (2 * amount) as u64
    }
}

/// How a purchase of `amount` units changes a profile: one point per unit,
/// volume accrued, and the tier recomputed from the new points total —
/// points are monotone, so the tier only rises or stays.
pub open spec fn accrue_purchase(p: UserProfile, amount: u64) -> UserProfile {
    let points = sat_add(p.points, amount);
    UserProfile {
        points,
        total_volume: sat_add(p.total_volume, amount),
        tier: if points > SILVER_THRESHOLD {
            tier_for_points(points)
        } else {
            p.tier
        },
        ..p
    }
}

/// How a redemption of `amount` units changes a profile: double points,
/// redeemed volume accrued, and the tier recomputed from the new points
/// total just as a purchase recomputes it.
pub open spec fn accrue_redemption(p: UserProfile, amount: u64) -> UserProfile {
    let points = sat_add(p.points, double_points(amount));
    UserProfile {
        points,
        total_redeemed: sat_add(p.total_redeemed, amount),
        tier: if points > SILVER_THRESHOLD {
            tier_for_points(points)
        } else {
            p.tier
        },
        ..p
    }
}

/// How one confirmed delivery rewards the fulfiller's profile.
pub open spec fn accrue_fulfillment(p: UserProfile) -> UserProfile {
    UserProfile {
        points: sat_add(p.points, FULFILLMENT_REWARD_POINTS),
        total_fulfilled: sat_add(p.total_fulfilled, 1),
        ..p
    }
}

/// How a manual operator award changes a profile: points only, no tier
/// recomputation.
pub open spec fn award_points_spec(p: UserProfile, amount: u64) -> UserProfile {
    UserProfile { points: sat_add(p.points, amount), ..p }
}

/// The cost of a purchase, or why it is refused: blocked while paused,
/// needs a price on record, capped per call, and the cost must not
/// overflow. The ledger record itself is not changed by a purchase.
pub open spec fn buy_cost_spec(s: ProtocolState, amount: u64) -> Result<u64, W3BError> {
    if s.is_paused {
        Err(W3BError::ProtocolPaused)
    } else if s.w3b_price_lamports == 0 {
        Err(W3BError::PriceNotSet)
    } else if amount > PER_CALL_PURCHASE_CAP {
        Err(W3BError::ExceedsTransactionCap)
    } else if s.w3b_price_lamports * amount > u64::MAX {
        Err(W3BError::MathOverflow)
    } else {
        Ok((s.w3b_price_lamports * amount) as u64)
    }
}

/// Buys `amount` tokens at the recorded price.
///
/// On success the platform performs the two linked transfers — the native
/// debit of the returned cost from the buyer to the receiver, then the
/// token credit from the treasury to the buyer — as one atomic unit with
/// this accrual. If the buyer has a profile it gains points and volume;
/// absent a profile the purchase succeeds without accrual.
pub fn buy_w3b(
    state: &ProtocolState,
    buyer: Bytes32,
    amount: u64,
    profile: &mut Option<UserProfile>,
    now: u64,
) -> (r: Result<TokensPurchased, W3BError>)
    ensures
        ({
            let o = buy_cost_spec(*state, amount);
            match o {
                Ok(cost) => r is Ok && r->Ok_0 == (TokensPurchased {
                    buyer,
                    amount,
                    lamports_paid: cost,
                    timestamp: now,
                }),
                Err(e) => r is Err && r->Err_0 == e && *final(profile) == *old(profile),
            }
        }),
        r is Ok ==> match *old(profile) {
            Some(p) => *final(profile) == Some(accrue_purchase(p, amount)),
            None => *final(profile) == None::<UserProfile>,
        },
{
    if state.is_paused {
        return Err(W3BError::ProtocolPaused);
    }
    if state.w3b_price_lamports == 0 {
        return Err(W3BError::PriceNotSet);
    }
    if amount > PER_CALL_PURCHASE_CAP {
        return Err(W3BError::ExceedsTransactionCap);
    }
    let cost = match state.w3b_price_lamports.checked_mul(amount) {
        Some(c) => c,
        None => {
            return Err(W3BError::MathOverflow);
        },
    };
    match profile {
        Some(p) => {
            p.points = p.points.saturating_add(amount);
            p.total_volume = p.total_volume.saturating_add(amount);
            if p.points > SILVER_THRESHOLD {
                p.tier = tier_for(p.points);
            }
        },
        None => {},
    }
    Ok(TokensPurchased { buyer, amount, lamports_paid: cost, timestamp: now })
}

/// How a burn of `amount` tokens changes the ledger, or why it is refused:
/// blocked while paused; the supply must cover the burn — a burn can never
/// be asserted against an inconsistent ledger — and the burned total must
/// not overflow.
pub open spec fn burn_w3b_spec(s: ProtocolState, amount: u64) -> Result<ProtocolState, W3BError> {
    if s.is_paused {
        Err(W3BError::ProtocolPaused)
    } else if s.total_supply - amount < 0 {
        Err(W3BError::MathOverflow)
    } else if s.total_burned + amount > u64::MAX {
        Err(W3BError::MathOverflow)
    } else {
        Ok(ProtocolState {
            total_supply: (s.total_supply - amount) as u64,
            total_burned: (s.total_burned + amount) as u64,
            ..s
        })
    }
}

/// Burns `amount` tokens and opens a redemption request keyed by the
/// requester and a caller-chosen id.
///
/// The platform performs the external burn, authorized by the user, in the
/// same atomic step; uniqueness of `(user, request_id)` is enforced by the
/// backing store refusing a duplicate key. Cancellation later never
/// restores burned tokens. The requester's profile, if any, earns double
/// points.
pub fn burn_w3b(
    state: &mut ProtocolState,
    user: Bytes32,
    amount: u64,
    request_id: u64,
    bump: u8,
    profile: &mut Option<UserProfile>,
    now: u64,
) -> (r: Result<(RedemptionRequest, TokensBurned), W3BError>)
    ensures
        ({
            let o = burn_w3b_spec(*old(state), amount);
            match o {
                Ok(s2) => r is Ok && *final(state) == s2,
                Err(e) => r is Err && r->Err_0 == e && *final(state) == *old(state)
                    && *final(profile) == *old(profile),
            }
        }),
        r is Ok ==> r->Ok_0.0 == new_request(user, request_id, amount, now, bump),
        r is Ok ==> r->Ok_0.1 == (TokensBurned { user, amount, request_id, timestamp: now }),
        r is Ok ==> match *old(profile) {
            Some(p) => *final(profile) == Some(accrue_redemption(p, amount)),
            None => *final(profile) == None::<UserProfile>,
        },
{
    if state.is_paused {
        return Err(W3BError::ProtocolPaused);
    }
    let new_supply = match state.total_supply.checked_sub(amount) {
        Some(n) => n,
        None => {
            return Err(W3BError::MathOverflow);
        },
    };
    let new_burned = match state.total_burned.checked_add(amount) {
        Some(n) => n,
        None => {
            return Err(W3BError::MathOverflow);
        },
    };
    state.total_supply = new_supply;
    state.total_burned = new_burned;
    let req = RedemptionRequest {
        user,
        request_id,
        amount,
        status: RedemptionStatus::Pending,
        fulfiller: Bytes32::zero(),
        created_at: now,
        claimed_at: 0,
        confirmed_at: 0,
        bump,
    };
    match profile {
        Some(p) => {
            let doubled = match amount.checked_mul(2) {
                Some(d) => d,
                None => u64::MAX,
            };
            p.points = p.points.saturating_add(doubled);
            p.total_redeemed = p.total_redeemed.saturating_add(amount);
            if p.points > SILVER_THRESHOLD {
                p.tier = tier_for(p.points);
            }
        },
        None => {},
    }
    Ok((req, TokensBurned { user, amount, request_id, timestamp: now }))
}

/// Outcome of a manual point award: operator-only, saturating.
pub open spec fn award_points_outcome(
    s: ProtocolState,
    caller: Bytes32,
    p: UserProfile,
    amount: u64,
) -> Result<UserProfile, W3BError> {
    if !is_operator_spec(&s, caller) {
        Err(W3BError::Unauthorized)
    } else {
        Ok(award_points_spec(p, amount))
    }
}

/// Awards points manually, for purchases settled off the ledger.
pub fn award_points(
    state: &ProtocolState,
    caller: Bytes32,
    profile: &mut UserProfile,
    amount: u64,
) -> (r: Result<(), W3BError>)
    ensures
        ({
            let o = award_points_outcome(*state, caller, *old(profile), amount);
            match o {
                Ok(p2) => r is Ok && *final(profile) == p2,
                Err(e) => r is Err && r->Err_0 == e && *final(profile) == *old(profile),
            }
        }),
{
    if !is_operator(state, caller) {
        return Err(W3BError::Unauthorized);
    }
    profile.points = profile.points.saturating_add(amount);
    Ok(())
}

/// Outcome of claiming a pending request: first come, first served. Any
/// caller may claim, but only a Pending request; the racing loser observes
/// the status mismatch and must re-read before retrying.
pub open spec fn claim_redemption_spec(
    r: RedemptionRequest,
    fulfiller: Bytes32,
    now: u64,
) -> Result<RedemptionRequest, W3BError> {
    if r.status != RedemptionStatus::Pending {
        Err(W3BError::InvalidRedemptionStatus)
    } else {
        Ok(RedemptionRequest {
            status: RedemptionStatus::Claimed,
            fulfiller,
            claimed_at: now,
            ..r
        })
    }
}

/// Claims a pending redemption request for the calling fulfiller.
pub fn claim_redemption(req: &mut RedemptionRequest, fulfiller: Bytes32, now: u64) -> (r: Result<
    RedemptionClaimed,
    W3BError,
>)
    ensures
        ({
            let o = claim_redemption_spec(*old(req), fulfiller, now);
            match o {
                Ok(r2) => r is Ok && *final(req) == r2,
                Err(e) => r is Err && r->Err_0 == e && *final(req) == *old(req),
            }
        }),
        r is Ok ==> r->Ok_0 == (RedemptionClaimed {
            request_id: old(req).request_id,
            fulfiller,
            timestamp: now,
        }),
{
    if !(req.status == RedemptionStatus::Pending) {
        return Err(W3BError::InvalidRedemptionStatus);
    }
    req.status = RedemptionStatus::Claimed;
    req.fulfiller = fulfiller;
    req.claimed_at = now;
    Ok(RedemptionClaimed { request_id: req.request_id, fulfiller, timestamp: now })
}

/// Outcome of confirming delivery: operator or administrator only, and
/// only a Claimed request.
pub open spec fn confirm_delivery_spec(
    s: ProtocolState,
    caller: Bytes32,
    r: RedemptionRequest,
    now: u64,
) -> Result<RedemptionRequest, W3BError> {
    if !is_operator_spec(&s, caller) {
        Err(W3BError::Unauthorized)
    } else if r.status != RedemptionStatus::Claimed {
        Err(W3BError::InvalidRedemptionStatus)
    } else {
        Ok(RedemptionRequest { status: RedemptionStatus::Confirmed, confirmed_at: now, ..r })
    }
}

/// Confirms delivery of a claimed redemption and rewards the fulfiller's
/// profile, if one exists.
pub fn confirm_delivery(
    state: &ProtocolState,
    caller: Bytes32,
    req: &mut RedemptionRequest,
    fulfiller_profile: &mut Option<UserProfile>,
    now: u64,
) -> (r: Result<RedemptionConfirmed, W3BError>)
    ensures
        ({
            let o = confirm_delivery_spec(*state, caller, *old(req), now);
            match o {
                Ok(r2) => r is Ok && *final(req) == r2,
                Err(e) => r is Err && r->Err_0 == e && *final(req) == *old(req)
                    && *final(fulfiller_profile) == *old(fulfiller_profile),
            }
        }),
        r is Ok ==> match *old(fulfiller_profile) {
            Some(p) => *final(fulfiller_profile) == Some(accrue_fulfillment(p)),
            None => *final(fulfiller_profile) == None::<UserProfile>,
        },
        r is Ok ==> r->Ok_0 == (RedemptionConfirmed {
            request_id: old(req).request_id,
            fulfiller: old(req).fulfiller,
            timestamp: now,
        }),
{
    if !is_operator(state, caller) {
        return Err(W3BError::Unauthorized);
    }
    if !(req.status == RedemptionStatus::Claimed) {
        return Err(W3BError::InvalidRedemptionStatus);
    }
    req.status = RedemptionStatus::Confirmed;
    req.confirmed_at = now;
    match fulfiller_profile {
        Some(p) => {
            p.points = p.points.saturating_add(FULFILLMENT_REWARD_POINTS);
            p.total_fulfilled = p.total_fulfilled.saturating_add(1);
        },
        None => {},
    }
    Ok(RedemptionConfirmed {
        request_id: req.request_id,
        fulfiller: req.fulfiller,
        timestamp: now,
    })
}

/// Outcome of cancelling: administrator only, and only before
/// confirmation. Cancellation means the order will not be fulfilled;
/// tokens already burned are deliberately not restored.
pub open spec fn cancel_redemption_spec(
    s: ProtocolState,
    caller: Bytes32,
    r: RedemptionRequest,
) -> Result<RedemptionRequest, W3BError> {
    if !is_authority_spec(&s, caller) {
        Err(W3BError::Unauthorized)
    } else if r.status != RedemptionStatus::Pending && r.status != RedemptionStatus::Claimed {
        Err(W3BError::InvalidRedemptionStatus)
    } else {
        Ok(RedemptionRequest { status: RedemptionStatus::Cancelled, ..r })
    }
}

/// Cancels a pending or claimed redemption request.
pub fn cancel_redemption(
    state: &ProtocolState,
    caller: Bytes32,
    req: &mut RedemptionRequest,
    now: u64,
) -> (r: Result<RedemptionCancelled, W3BError>)
    ensures
        ({
            let o = cancel_redemption_spec(*state, caller, *old(req));
            match o {
                Ok(r2) => r is Ok && *final(req) == r2,
                Err(e) => r is Err && r->Err_0 == e && *final(req) == *old(req),
            }
        }),
        r is Ok ==> r->Ok_0 == (RedemptionCancelled {
            request_id: old(req).request_id,
            timestamp: now,
        }),
{
    if !is_authority(state, caller) {
        return Err(W3BError::Unauthorized);
    }
    if !(req.status == RedemptionStatus::Pending || req.status == RedemptionStatus::Claimed) {
        return Err(W3BError::InvalidRedemptionStatus);
    }
    req.status = RedemptionStatus::Cancelled;
    Ok(RedemptionCancelled { request_id: req.request_id, timestamp: now })
}

} // verus!
