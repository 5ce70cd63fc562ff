//! The reserve and supply guard, and the administrator operations on the
//! ledger singleton.
//!
//! Each operation has a spec-level outcome function giving the exact result
//! for every input — the new state on success, the one stable error code
//! otherwise — and an executable twin proved to return exactly that
//! outcome. An error always leaves the state untouched.

use vstd::prelude::*;

use crate::auth::{is_authority, is_authority_spec, is_operator, is_operator_spec};
use crate::bytes32::Bytes32;
use crate::errors::W3BError;
use crate::events::{
    MerkleRootUpdated, ProofSubmitted, TokensMinted, YieldDistributed, YieldRateUpdated,
};
use crate::state::{ProtocolState, STALENESS_WINDOW_SECS};

verus! {

/// Whether the last reserve proof is still fresh at time `now`: strictly
/// younger than the staleness window. A proof stamped in the future counts
/// as fresh.
pub open spec fn proof_fresh(s: ProtocolState, now: u64) -> bool {
    now - s.last_proof_timestamp < STALENESS_WINDOW_SECS
}

/// How far apart two prices are.
pub open spec fn price_delta(a: u64, b: u64) -> int {
    if a > b {
        a - b
    } else {
        b - a
    }
}

/// Outcome of recording a new attestation root: operator-only, blocked while
/// paused. The reserve count is fully replaced — downward revision is
/// deliberate — and the root-update time is stamped.
pub open spec fn update_merkle_root_spec(
    s: ProtocolState,
    caller: Bytes32,
    new_root: Bytes32,
    total_serials: u64,
    now: u64,
) -> Result<ProtocolState, W3BError> {
    if !is_operator_spec(&s, caller) {
        Err(W3BError::Unauthorized)
    } else if s.is_paused {
        Err(W3BError::ProtocolPaused)
    } else {
        Ok(ProtocolState {
            current_merkle_root: new_root,
            proven_reserves: total_serials,
            last_root_update: now,
            ..s
        })
    }
}

/// Records a new attestation root and reserve count.
pub fn update_merkle_root(
    state: &mut ProtocolState,
    caller: Bytes32,
    new_root: Bytes32,
    total_serials: u64,
    now: u64,
) -> (r: Result<MerkleRootUpdated, W3BError>)
    ensures
        ({
            let o = update_merkle_root_spec(*old(state), caller, new_root, total_serials, now);
            match o {
                Ok(s2) => r is Ok && *final(state) == s2,
                Err(e) => r is Err && r->Err_0 == e && *final(state) == *old(state),
            }
        }),
        r is Ok ==> r->Ok_0 == (MerkleRootUpdated {
            root: new_root,
            total_serials,
            timestamp: now,
        }),
{
    if !is_operator(state, caller) {
        return Err(W3BError::Unauthorized);
    }
    if state.is_paused {
        return Err(W3BError::ProtocolPaused);
    }
    state.current_merkle_root = new_root;
    state.proven_reserves = total_serials;
    state.last_root_update = now;
    Ok(MerkleRootUpdated { root: new_root, total_serials, timestamp: now })
}

/// Outcome of submitting a reserve proof: operator-only; the claimed count
/// must agree with the reserves recorded by the attestation root on file,
/// so a stale or forged proof cannot independently inflate trust. Only the
/// proof timestamp moves.
pub open spec fn submit_proof_spec(
    s: ProtocolState,
    caller: Bytes32,
    claimed_reserves: u64,
    now: u64,
) -> Result<ProtocolState, W3BError> {
    if !is_operator_spec(&s, caller) {
        Err(W3BError::Unauthorized)
    } else if claimed_reserves != s.proven_reserves {
        Err(W3BError::ReserveCountMismatch)
    } else {
        Ok(ProtocolState { last_proof_timestamp: now, ..s })
    }
}

/// Accepts a reserve proof that agrees with the recorded root.
pub fn submit_proof(
    state: &mut ProtocolState,
    caller: Bytes32,
    proof_hash: Vec<u8>,
    claimed_reserves: u64,
    now: u64,
) -> (r: Result<ProofSubmitted, W3BError>)
    ensures
        ({
            let o = submit_proof_spec(*old(state), caller, claimed_reserves, now);
            match o {
                Ok(s2) => r is Ok && *final(state) == s2,
                Err(e) => r is Err && r->Err_0 == e && *final(state) == *old(state),
            }
        }),
        r is Ok ==> r->Ok_0.merkle_root == old(state).current_merkle_root
            && r->Ok_0.claimed_reserves == claimed_reserves
            && r->Ok_0.proof_hash@ == proof_hash@
            && r->Ok_0.timestamp == now,
{
    if !is_operator(state, caller) {
        return Err(W3BError::Unauthorized);
    }
    if claimed_reserves != state.proven_reserves {
        return Err(W3BError::ReserveCountMismatch);
    }
    state.last_proof_timestamp = now;
    Ok(ProofSubmitted {
        merkle_root: state.current_merkle_root,
        claimed_reserves,
        proof_hash,
        timestamp: now,
    })
}

/// Outcome of the bounded price update: operator-only, price must be
/// nonzero, and once a nonzero price exists a change may move it by at most
/// a fifth of its prior value — bounding the blast radius of a compromised
/// hot key.
pub open spec fn set_w3b_price_spec(
    s: ProtocolState,
    caller: Bytes32,
    price_lamports: u64,
) -> Result<ProtocolState, W3BError> {
    if !is_operator_spec(&s, caller) {
        Err(W3BError::Unauthorized)
    } else if price_lamports == 0 {
        Err(W3BError::InvalidPrice)
    } else if s.w3b_price_lamports > 0
        && price_delta(price_lamports, s.w3b_price_lamports) > s.w3b_price_lamports / 5 {
        Err(W3BError::PriceChangeExceedsLimit)
    } else {
        Ok(ProtocolState { w3b_price_lamports: price_lamports, ..s })
    }
}

/// Updates the price along the bounded path.
pub fn set_w3b_price(state: &mut ProtocolState, caller: Bytes32, price_lamports: u64) -> (r:
    Result<(), W3BError>)
    ensures
        ({
            let o = set_w3b_price_spec(*old(state), caller, price_lamports);
            match o {
                Ok(s2) => r is Ok && *final(state) == s2,
                Err(e) => r is Err && r->Err_0 == e && *final(state) == *old(state),
            }
        }),
{
    if !is_operator(state, caller) {
        return Err(W3BError::Unauthorized);
    }
    if price_lamports == 0 {
        return Err(W3BError::InvalidPrice);
    }
    let current = state.w3b_price_lamports;
    if current > 0 {
        let max_change = current / 5;
        let diff = if price_lamports > current {
            price_lamports - current
        } else {
            current - price_lamports
        };
        if diff > max_change {
            return Err(W3BError::PriceChangeExceedsLimit);
        }
    }
    state.w3b_price_lamports = price_lamports;
    Ok(())
}

/// Outcome of the administrator price override: unbounded, for emergency
/// correction only.
pub open spec fn set_w3b_price_admin_spec(
    s: ProtocolState,
    caller: Bytes32,
    price: u64,
) -> Result<ProtocolState, W3BError> {
    if !is_authority_spec(&s, caller) {
        Err(W3BError::Unauthorized)
    } else {
        Ok(ProtocolState { w3b_price_lamports: price, ..s })
    }
}

/// Overrides the price without bounds (administrator only).
pub fn set_w3b_price_admin(state: &mut ProtocolState, caller: Bytes32, price: u64) -> (r: Result<
    (),
    W3BError,
>)
    ensures
        ({
            let o = set_w3b_price_admin_spec(*old(state), caller, price);
            match o {
                Ok(s2) => r is Ok && *final(state) == s2,
                Err(e) => r is Err && r->Err_0 == e && *final(state) == *old(state),
            }
        }),
{
    if !is_authority(state, caller) {
        return Err(W3BError::Unauthorized);
    }
    state.w3b_price_lamports = price;
    Ok(())
}

/// Outcome of minting: operator-only, blocked while paused, frozen once the
/// last proof is stale, and never past the proven reserves. The external
/// token issuance and this counter update form one atomic step: the
/// platform commits both or neither.
pub open spec fn mint_w3b_spec(
    s: ProtocolState,
    caller: Bytes32,
    amount: u64,
    now: u64,
) -> Result<ProtocolState, W3BError> {
    if !is_operator_spec(&s, caller) {
        Err(W3BError::Unauthorized)
    } else if s.is_paused {
        Err(W3BError::ProtocolPaused)
    } else if !proof_fresh(s, now) {
        Err(W3BError::StaleMerkleRoot)
    } else if s.total_supply + amount > u64::MAX {
        Err(W3BError::MathOverflow)
    } else if s.total_supply + amount > s.proven_reserves {
        Err(W3BError::InsufficientReserves)
    } else {
        Ok(ProtocolState { total_supply: (s.total_supply + amount) as u64, ..s })
    }
}

/// Mints `amount` units against proven reserves.
pub fn mint_w3b(state: &mut ProtocolState, caller: Bytes32, amount: u64, now: u64) -> (r: Result<
    TokensMinted,
    W3BError,
>)
    ensures
        ({
            let o = mint_w3b_spec(*old(state), caller, amount, now);
            match o {
                Ok(s2) => r is Ok && *final(state) == s2,
                Err(e) => r is Err && r->Err_0 == e && *final(state) == *old(state),
            }
        }),
        r is Ok ==> r->Ok_0 == (TokensMinted {
            amount,
            new_total_supply: final(state).total_supply,
            timestamp: now,
        }),
        r is Ok ==> final(state).total_supply <= final(state).proven_reserves,
{
    if !is_operator(state, caller) {
        return Err(W3BError::Unauthorized);
    }
    if state.is_paused {
        return Err(W3BError::ProtocolPaused);
    }
    let fresh = now < state.last_proof_timestamp
        || now - state.last_proof_timestamp < STALENESS_WINDOW_SECS;
    if !fresh {
        return Err(W3BError::StaleMerkleRoot);
    }
    let new_supply = match state.total_supply.checked_add(amount) {
        Some(n) => n,
        None => {
            return Err(W3BError::MathOverflow);
        },
    };
    if new_supply > state.proven_reserves {
        return Err(W3BError::InsufficientReserves);
    }
    state.total_supply = new_supply;
    Ok(TokensMinted { amount, new_total_supply: new_supply, timestamp: now })
}

/// Outcome of replacing the operator key (administrator only).
pub open spec fn set_operator_spec(
    s: ProtocolState,
    caller: Bytes32,
    new_operator: Bytes32,
) -> Result<ProtocolState, W3BError> {
    if !is_authority_spec(&s, caller) {
        Err(W3BError::Unauthorized)
    } else {
        Ok(ProtocolState { operator: new_operator, ..s })
    }
}

/// Replaces the operator key.
pub fn set_operator(state: &mut ProtocolState, caller: Bytes32, new_operator: Bytes32) -> (r:
    Result<(), W3BError>)
    ensures
        ({
            let o = set_operator_spec(*old(state), caller, new_operator);
            match o {
                Ok(s2) => r is Ok && *final(state) == s2,
                Err(e) => r is Err && r->Err_0 == e && *final(state) == *old(state),
            }
        }),
{
    if !is_authority(state, caller) {
        return Err(W3BError::Unauthorized);
    }
    state.operator = new_operator;
    Ok(())
}

/// Outcome of pausing or unpausing (administrator only). The flag gates
/// every supply-affecting and purchase operation.
pub open spec fn set_paused_spec(s: ProtocolState, caller: Bytes32, paused: bool) -> Result<
    ProtocolState,
    W3BError,
> {
    if !is_authority_spec(&s, caller) {
        Err(W3BError::Unauthorized)
    } else {
        Ok(ProtocolState { is_paused: paused, ..s })
    }
}

/// Pauses or unpauses the protocol.
pub fn set_paused(state: &mut ProtocolState, caller: Bytes32, paused: bool) -> (r: Result<
    (),
    W3BError,
>)
    ensures
        ({
            let o = set_paused_spec(*old(state), caller, paused);
            match o {
                Ok(s2) => r is Ok && *final(state) == s2,
                Err(e) => r is Err && r->Err_0 == e && *final(state) == *old(state),
            }
        }),
{
    if !is_authority(state, caller) {
        return Err(W3BError::Unauthorized);
    }
    state.is_paused = paused;
    Ok(())
}

/// Outcome of redirecting the native-currency receiver (administrator only).
pub open spec fn set_sol_receiver_spec(
    s: ProtocolState,
    caller: Bytes32,
    receiver: Bytes32,
) -> Result<ProtocolState, W3BError> {
    if !is_authority_spec(&s, caller) {
        Err(W3BError::Unauthorized)
    } else {
        Ok(ProtocolState { sol_receiver: receiver, ..s })
    }
}

/// Redirects the native-currency receiver.
pub fn set_sol_receiver(state: &mut ProtocolState, caller: Bytes32, receiver: Bytes32) -> (r:
    Result<(), W3BError>)
    ensures
        ({
            let o = set_sol_receiver_spec(*old(state), caller, receiver);
            match o {
                Ok(s2) => r is Ok && *final(state) == s2,
                Err(e) => r is Err && r->Err_0 == e && *final(state) == *old(state),
            }
        }),
{
    if !is_authority(state, caller) {
        return Err(W3BError::Unauthorized);
    }
    state.sol_receiver = receiver;
    Ok(())
}

/// Outcome of replacing the treasury account (administrator only).
pub open spec fn set_treasury_spec(
    s: ProtocolState,
    caller: Bytes32,
    treasury: Bytes32,
) -> Result<ProtocolState, W3BError> {
    if !is_authority_spec(&s, caller) {
        Err(W3BError::Unauthorized)
    } else {
        Ok(ProtocolState { treasury, ..s })
    }
}

/// Replaces the treasury account.
pub fn set_treasury(state: &mut ProtocolState, caller: Bytes32, treasury: Bytes32) -> (r: Result<
    (),
    W3BError,
>)
    ensures
        ({
            let o = set_treasury_spec(*old(state), caller, treasury);
            match o {
                Ok(s2) => r is Ok && *final(state) == s2,
                Err(e) => r is Err && r->Err_0 == e && *final(state) == *old(state),
            }
        }),
{
    if !is_authority(state, caller) {
        return Err(W3BError::Unauthorized);
    }
    state.treasury = treasury;
    Ok(())
}

/// Outcome of setting the informational yield rate (administrator only).
pub open spec fn set_yield_rate_spec(s: ProtocolState, caller: Bytes32, apy_bps: u16) -> Result<
    ProtocolState,
    W3BError,
> {
    if !is_authority_spec(&s, caller) {
        Err(W3BError::Unauthorized)
    } else {
        Ok(ProtocolState { yield_apy_bps: apy_bps, ..s })
    }
}

/// Sets the yield rate in basis points.
pub fn set_yield_rate(state: &mut ProtocolState, caller: Bytes32, apy_bps: u16, now: u64) -> (r:
    Result<YieldRateUpdated, W3BError>)
    ensures
        ({
            let o = set_yield_rate_spec(*old(state), caller, apy_bps);
            match o {
                Ok(s2) => r is Ok && *final(state) == s2,
                Err(e) => r is Err && r->Err_0 == e && *final(state) == *old(state),
            }
        }),
        r is Ok ==> r->Ok_0 == (YieldRateUpdated { apy_bps, timestamp: now }),
{
    if !is_authority(state, caller) {
        return Err(W3BError::Unauthorized);
    }
    state.yield_apy_bps = apy_bps;
    Ok(YieldRateUpdated { apy_bps, timestamp: now })
}

/// Outcome of recording an off-ledger yield distribution: operator-only,
/// the running total must not overflow, and the distribution time is
/// stamped.
pub open spec fn record_yield_distribution_spec(
    s: ProtocolState,
    caller: Bytes32,
    amount: u64,
    now: u64,
) -> Result<ProtocolState, W3BError> {
    if !is_operator_spec(&s, caller) {
        Err(W3BError::Unauthorized)
    } else if s.total_yield_distributed + amount > u64::MAX {
        Err(W3BError::MathOverflow)
    } else {
        Ok(ProtocolState {
            total_yield_distributed: (s.total_yield_distributed + amount) as u64,
            last_yield_distribution: now,
            ..s
        })
    }
}

/// Records that yield was distributed off-ledger.
pub fn record_yield_distribution(
    state: &mut ProtocolState,
    caller: Bytes32,
    amount: u64,
    now: u64,
) -> (r: Result<YieldDistributed, W3BError>)
    ensures
        ({
            let o = record_yield_distribution_spec(*old(state), caller, amount, now);
            match o {
                Ok(s2) => r is Ok && *final(state) == s2,
                Err(e) => r is Err && r->Err_0 == e && *final(state) == *old(state),
            }
        }),
        r is Ok ==> r->Ok_0 == (YieldDistributed {
            amount,
            new_total: final(state).total_yield_distributed,
            timestamp: now,
        }),
{
    if !is_operator(state, caller) {
        return Err(W3BError::Unauthorized);
    }
    let new_total = match state.total_yield_distributed.checked_add(amount) {
        Some(n) => n,
        None => {
            return Err(W3BError::MathOverflow);
        },
    };
    state.total_yield_distributed = new_total;
    state.last_yield_distribution = now;
    Ok(YieldDistributed { amount, new_total, timestamp: now })
}

/// Retires the ledger singleton so a deployment can be re-initialized from
/// a clean slate. The record is consumed; the platform reclaims its
/// backing balance. Administrator only.
pub fn close_protocol_state(state: ProtocolState, caller: Bytes32) -> (r: Result<(), W3BError>)
    ensures
        r is Ok <==> is_authority_spec(&state, caller),
        r is Err ==> r->Err_0 == W3BError::Unauthorized,
{
    if !is_authority(&state, caller) {
        return Err(W3BError::Unauthorized);
    }
    Ok(())
}

} // verus!
