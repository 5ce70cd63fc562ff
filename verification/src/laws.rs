//! The protocol's global laws, proved over the spec-level outcome
//! functions that every operation's contract is stated against.
//!
//! [`LedgerOp`] ranges over every operation that can touch the ledger
//! singleton, [`RequestOp`] over every transition of a redemption request,
//! and [`ProfileOp`] over every accrual a profile can receive, so a law
//! quantified over one of them covers the whole surface at once.

use vstd::prelude::*;

use crate::bytes32::Bytes32;
use crate::errors::W3BError;
use crate::layout::{migrated_state, v1_reads, v2_reads, ProtocolStateV1};
use crate::ledger::{
    mint_w3b_spec, price_delta, record_yield_distribution_spec, set_operator_spec,
    set_paused_spec, set_sol_receiver_spec, set_treasury_spec, set_w3b_price_admin_spec,
    set_w3b_price_spec, set_yield_rate_spec, submit_proof_spec, update_merkle_root_spec,
};
use crate::market::{
    accrue_fulfillment, accrue_purchase, accrue_redemption, award_points_spec, burn_w3b_spec,
    cancel_redemption_spec, claim_redemption_spec, confirm_delivery_spec,
};
use crate::state::{
    profile_wf, tier_for_points, tier_rank, ProtocolState, RedemptionRequest, RedemptionStatus,
    UserProfile,
};

verus! {

/// Any operation that can change the ledger singleton.
pub enum LedgerOp {
    UpdateMerkleRoot { caller: Bytes32, new_root: Bytes32, total_serials: u64, now: u64 },
    SubmitProof { caller: Bytes32, claimed_reserves: u64, now: u64 },
    SetW3bPrice { caller: Bytes32, price_lamports: u64 },
    SetW3bPriceAdmin { caller: Bytes32, price: u64 },
    MintW3b { caller: Bytes32, amount: u64, now: u64 },
    BurnW3b { amount: u64 },
    SetOperator { caller: Bytes32, new_operator: Bytes32 },
    SetPaused { caller: Bytes32, paused: bool },
    SetSolReceiver { caller: Bytes32, receiver: Bytes32 },
    SetTreasury { caller: Bytes32, treasury: Bytes32 },
    SetYieldRate { caller: Bytes32, apy_bps: u16 },
    RecordYieldDistribution { caller: Bytes32, amount: u64, now: u64 },
}

/// The outcome of one ledger operation.
pub open spec fn ledger_step(s: ProtocolState, op: LedgerOp) -> Result<ProtocolState, W3BError> {
    match op {
        LedgerOp::UpdateMerkleRoot { caller, new_root, total_serials, now } =>
            update_merkle_root_spec(s, caller, new_root, total_serials, now),
        LedgerOp::SubmitProof { caller, claimed_reserves, now } => submit_proof_spec(
            s,
            caller,
            claimed_reserves,
            now,
        ),
        LedgerOp::SetW3bPrice { caller, price_lamports } => set_w3b_price_spec(
            s,
            caller,
            price_lamports,
        ),
        LedgerOp::SetW3bPriceAdmin { caller, price } => set_w3b_price_admin_spec(s, caller, price),
        LedgerOp::MintW3b { caller, amount, now } => mint_w3b_spec(s, caller, amount, now),
        LedgerOp::BurnW3b { amount } => burn_w3b_spec(s, amount),
        LedgerOp::SetOperator { caller, new_operator } => set_operator_spec(
            s,
            caller,
            new_operator,
        ),
        LedgerOp::SetPaused { caller, paused } => set_paused_spec(s, caller, paused),
        LedgerOp::SetSolReceiver { caller, receiver } => set_sol_receiver_spec(s, caller, receiver),
        LedgerOp::SetTreasury { caller, treasury } => set_treasury_spec(s, caller, treasury),
        LedgerOp::SetYieldRate { caller, apy_bps } => set_yield_rate_spec(s, caller, apy_bps),
        LedgerOp::RecordYieldDistribution { caller, amount, now } =>
            record_yield_distribution_spec(s, caller, amount, now),
    }
}

/// The state after one ledger operation: the new state on success, the old
/// state untouched on any error.
pub open spec fn ledger_next(s: ProtocolState, op: LedgerOp) -> ProtocolState {
    match ledger_step(s, op) {
        Ok(s2) => s2,
        Err(_) => s,
    }
}

/// The state after a whole sequence of ledger operations.
pub open spec fn ledger_run(s: ProtocolState, ops: Seq<LedgerOp>) -> ProtocolState
    decreases ops.len(),
{
    if ops.len() == 0 {
        s
    } else {
        ledger_run(ledger_next(s, ops[0]), ops.drop_first())
    }
}

/// The burned total never decreases, whatever one operation does.
pub proof fn lemma_total_burned_monotone(s: ProtocolState, op: LedgerOp)
    ensures
        ledger_next(s, op).total_burned >= s.total_burned,
{
}

/// The burned total never decreases over any sequence of operations.
pub proof fn lemma_total_burned_monotone_run(s: ProtocolState, ops: Seq<LedgerOp>)
    ensures
        ledger_run(s, ops).total_burned >= s.total_burned,
    decreases ops.len(),
{
    if ops.len() > 0 {
        lemma_total_burned_monotone(s, ops[0]);
        lemma_total_burned_monotone_run(ledger_next(s, ops[0]), ops.drop_first());
    }
}

/// The supply only decreases through a successful burn — and a burn never
/// takes it below the amount burned, so the unsigned counter never wraps.
pub proof fn lemma_supply_decreases_only_by_burn(s: ProtocolState, op: LedgerOp)
    ensures
        ledger_next(s, op).total_supply < s.total_supply ==> op is BurnW3b && ledger_step(
            s,
            op,
        ) is Ok,
        op matches LedgerOp::BurnW3b { amount } ==> (ledger_step(s, op) is Ok ==> s.total_supply
            >= amount && ledger_next(s, op).total_supply == s.total_supply - amount),
{
}

/// One mint call: its arguments and the clock reading it ran under.
pub struct MintCall {
    pub caller: Bytes32,
    pub amount: u64,
    pub now: u64,
}

/// The state after one mint call: changed only if the mint succeeded.
pub open spec fn mint_next(s: ProtocolState, c: MintCall) -> ProtocolState {
    match mint_w3b_spec(s, c.caller, c.amount, c.now) {
        Ok(s2) => s2,
        Err(_) => s,
    }
}

/// The state after a sequence of mint calls.
pub open spec fn mint_run(s: ProtocolState, calls: Seq<MintCall>) -> ProtocolState
    decreases calls.len(),
{
    if calls.len() == 0 {
        s
    } else {
        mint_run(mint_next(s, calls[0]), calls.drop_first())
    }
}

/// One mint call keeps the supply within the proven reserves.
pub proof fn lemma_mint_preserves_reserve_bound(s: ProtocolState, c: MintCall)
    requires
        s.total_supply <= s.proven_reserves,
    ensures
        mint_next(s, c).total_supply <= mint_next(s, c).proven_reserves,
{
}

/// A whole sequence of mint calls keeps the supply within the proven
/// reserves.
pub proof fn lemma_mint_run_reserve_bound(s: ProtocolState, calls: Seq<MintCall>)
    requires
        s.total_supply <= s.proven_reserves,
    ensures
        mint_run(s, calls).total_supply <= mint_run(s, calls).proven_reserves,
    decreases calls.len(),
{
    if calls.len() > 0 {
        lemma_mint_preserves_reserve_bound(s, calls[0]);
        lemma_mint_run_reserve_bound(mint_next(s, calls[0]), calls.drop_first());
    }
}

/// Under any sequence of mint calls, the supply never exceeds the proven
/// reserves at any observable point: after every prefix of the sequence
/// the bound still holds.
pub proof fn lemma_mint_run_reserve_bound_at_every_point(s: ProtocolState, calls: Seq<MintCall>)
    requires
        s.total_supply <= s.proven_reserves,
    ensures
        forall|i: int|
            0 <= i <= calls.len() ==> #[trigger] mint_run(s, calls.take(i)).total_supply
                <= mint_run(s, calls.take(i)).proven_reserves,
{
    assert forall|i: int| 0 <= i <= calls.len() implies #[trigger] mint_run(
        s,
        calls.take(i),
    ).total_supply <= mint_run(s, calls.take(i)).proven_reserves by {
        lemma_mint_run_reserve_bound(s, calls.take(i));
    }
}

/// Any transition of a redemption request.
pub enum RequestOp {
    Claim { fulfiller: Bytes32, now: u64 },
    Confirm { caller: Bytes32, now: u64 },
    Cancel { caller: Bytes32 },
}

/// The outcome of one request transition, under the given ledger state
/// (which carries the authority and operator keys the capability checks
/// need).
pub open spec fn request_step(
    s: ProtocolState,
    r: RedemptionRequest,
    op: RequestOp,
) -> Result<RedemptionRequest, W3BError> {
    match op {
        RequestOp::Claim { fulfiller, now } => claim_redemption_spec(r, fulfiller, now),
        RequestOp::Confirm { caller, now } => confirm_delivery_spec(s, caller, r, now),
        RequestOp::Cancel { caller } => cancel_redemption_spec(s, caller, r),
    }
}

/// The status pairs the state machine permits.
pub open spec fn allowed_transition(a: RedemptionStatus, b: RedemptionStatus) -> bool {
    ||| (a is Pending && b is Claimed)
    ||| (a is Claimed && b is Confirmed)
    ||| (a is Pending && b is Cancelled)
    ||| (a is Claimed && b is Cancelled)
}

/// A request only ever moves forward: every successful transition is one
/// of the permitted pairs, no transition produces Pending, Confirmed is
/// reached only from Claimed — it is never skipped into — and a request
/// in a terminal status refuses every transition. The request's identity
/// and history fields survive every transition.
pub proof fn lemma_request_transitions(s: ProtocolState, r: RedemptionRequest, op: RequestOp)
    ensures
        request_step(s, r, op) is Ok ==> allowed_transition(
            r.status,
            request_step(s, r, op)->Ok_0.status,
        ),
        request_step(s, r, op) is Ok ==> !(request_step(s, r, op)->Ok_0.status is Pending),
        request_step(s, r, op) is Ok && request_step(s, r, op)->Ok_0.status is Confirmed
            ==> r.status is Claimed,
        r.status is Confirmed || r.status is Cancelled ==> request_step(s, r, op) is Err,
        request_step(s, r, op) is Ok ==> {
            let r2 = request_step(s, r, op)->Ok_0;
            r2.user == r.user && r2.request_id == r.request_id && r2.amount == r.amount
                && r2.created_at == r.created_at
        },
{
}

/// How far along the forward-only lifecycle a status is; the two terminal
/// statuses share the final stage.
pub open spec fn status_rank(s: RedemptionStatus) -> nat {
    match s {
        RedemptionStatus::Pending => 0,
        RedemptionStatus::Claimed => 1,
        RedemptionStatus::Confirmed => 2,
        RedemptionStatus::Cancelled => 2,
    }
}

/// The request after one transition attempt: changed only on success.
pub open spec fn request_next(
    s: ProtocolState,
    r: RedemptionRequest,
    op: RequestOp,
) -> RedemptionRequest {
    match request_step(s, r, op) {
        Ok(r2) => r2,
        Err(_) => r,
    }
}

/// The request after a whole history of transition attempts.
pub open spec fn request_run(
    s: ProtocolState,
    r: RedemptionRequest,
    ops: Seq<RequestOp>,
) -> RedemptionRequest
    decreases ops.len(),
{
    if ops.len() == 0 {
        r
    } else {
        request_run(s, request_next(s, r, ops[0]), ops.drop_first())
    }
}

/// Over any history of transition attempts a request only moves forward:
/// its status rank never falls, and once it has left Pending no later
/// attempt ever shows it Pending again.
pub proof fn lemma_request_run_never_reverts(
    s: ProtocolState,
    r: RedemptionRequest,
    ops: Seq<RequestOp>,
)
    ensures
        status_rank(request_run(s, r, ops).status) >= status_rank(r.status),
        request_run(s, r, ops).status is Pending ==> r.status is Pending,
    decreases ops.len(),
{
    if ops.len() > 0 {
        lemma_request_transitions(s, r, ops[0]);
        lemma_request_run_never_reverts(s, request_next(s, r, ops[0]), ops.drop_first());
    }
}

/// Claiming is exactly-once: of two claim attempts on the same pending
/// request, the one serialized first succeeds and the other observes the
/// status mismatch, whoever the callers are.
pub proof fn lemma_claim_exactly_once(
    r: RedemptionRequest,
    f1: Bytes32,
    t1: u64,
    f2: Bytes32,
    t2: u64,
)
    requires
        r.status is Pending,
    ensures
        claim_redemption_spec(r, f1, t1) is Ok,
        claim_redemption_spec(claim_redemption_spec(r, f1, t1)->Ok_0, f2, t2) == Err::<
            RedemptionRequest,
            W3BError,
        >(W3BError::InvalidRedemptionStatus),
{
}

/// The bounded price path never moves the price by more than a fifth of
/// its prior value in one call. (The administrator override path is
/// deliberately unconstrained; its outcome function sets the price
/// verbatim.)
pub proof fn lemma_price_change_bounded(s: ProtocolState, caller: Bytes32, price: u64)
    requires
        s.w3b_price_lamports > 0,
    ensures
        set_w3b_price_spec(s, caller, price) is Ok ==> price_delta(
            set_w3b_price_spec(s, caller, price)->Ok_0.w3b_price_lamports,
            s.w3b_price_lamports,
        ) <= s.w3b_price_lamports / 5,
{
}

/// Any accrual a profile can receive.
pub enum ProfileOp {
    Purchase { amount: u64 },
    Redemption { amount: u64 },
    Fulfillment,
    Award { amount: u64 },
}

/// The profile after one accrual.
pub open spec fn profile_step(p: UserProfile, op: ProfileOp) -> UserProfile {
    match op {
        ProfileOp::Purchase { amount } => accrue_purchase(p, amount),
        ProfileOp::Redemption { amount } => accrue_redemption(p, amount),
        ProfileOp::Fulfillment => accrue_fulfillment(p),
        ProfileOp::Award { amount } => award_points_spec(p, amount),
    }
}

/// A larger points total never justifies a lower tier.
pub proof fn lemma_tier_for_points_monotone(a: u64, b: u64)
    requires
        a <= b,
    ensures
        tier_rank(tier_for_points(a)) <= tier_rank(tier_for_points(b)),
{
}

/// Points never decrease under any accrual.
pub proof fn lemma_points_monotone(p: UserProfile, op: ProfileOp)
    ensures
        profile_step(p, op).points >= p.points,
{
}

/// The tier never decreases under any accrual, and a well-formed profile
/// — one whose tier does not overstate its points — stays well formed.
pub proof fn lemma_tier_monotone(p: UserProfile, op: ProfileOp)
    requires
        profile_wf(p),
    ensures
        profile_wf(profile_step(p, op)),
        tier_rank(profile_step(p, op).tier) >= tier_rank(p.tier),
{
    lemma_points_monotone(p, op);
    lemma_tier_for_points_monotone(p.points, profile_step(p, op).points);
}

/// Migration round trip: a record written under the prior layout and then
/// migrated reads back, through the current layout's accessors, with
/// identical values in every field both layouts share; the operator the
/// prior layout lacked defaults to the authority, and the new counters
/// start at zero.
pub proof fn lemma_migration_round_trip(s1: ProtocolStateV1, b1: Seq<u8>, b2: Seq<u8>)
    requires
        v1_reads(b1) == s1,
        v2_reads(b2) == migrated_state(v1_reads(b1)),
    ensures
        v2_reads(b2).authority == s1.authority,
        v2_reads(b2).w3b_mint == s1.w3b_mint,
        v2_reads(b2).treasury == s1.treasury,
        v2_reads(b2).current_merkle_root == s1.merkle_root,
        v2_reads(b2).total_supply == s1.total_supply,
        v2_reads(b2).proven_reserves == s1.proven_reserves,
        v2_reads(b2).last_root_update == s1.last_root_update,
        v2_reads(b2).last_proof_timestamp == s1.last_proof_timestamp,
        v2_reads(b2).w3b_price_lamports == s1.w3b_price_lamports,
        v2_reads(b2).sol_receiver == s1.sol_receiver,
        v2_reads(b2).is_paused == s1.is_paused,
        v2_reads(b2).bump == s1.bump,
        v2_reads(b2).operator == s1.authority,
        v2_reads(b2).total_burned == 0,
{
}

} // verus!
