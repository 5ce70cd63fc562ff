//! The versioned binary record layouts and the schema migration engine.
//!
//! Each version of the persisted ledger record is a fixed-offset binary
//! layout; the offsets are part of the wire contract. Migration transforms
//! a live record from the old layout to the new one without a structural
//! decode: the caller's identity is validated by reading only the
//! fixed-offset identity field — which sits at the same offset in both
//! layouts by design — the buffer is resized, and every old-layout field
//! is read at its old offset and rewritten at its new offset in a single
//! pass over a zeroed buffer. Fields absent from the old layout become
//! zero. Resizing and remapping are deliberately two separate
//! administrator-only steps.

use vstd::prelude::*;

use crate::bytes32::Bytes32;
use crate::codec::{
    bytes32_at, get_bytes32, get_u16, get_u64, lemma_le_val_zero, put_byte, put_bytes32,
    put_u16, put_u64, resize_record, u16_at, u64_at, zero_fill_from, zeroed_record,
};
use crate::errors::W3BError;
use crate::state::ProtocolState;

verus! {

/// Bytes reserved for the record's type tag, preserved by migration.
pub const DISCRIMINATOR_LEN: usize = 8;

// The prior layout. The identity field comes first; every offset below is
// a contract with exactly this version pair.
pub const V1_AUTHORITY: usize = 8;

pub const V1_MINT: usize = 40;

pub const V1_TREASURY: usize = 72;

pub const V1_ROOT: usize = 104;

pub const V1_LAST_ROOT_UPDATE: usize = 136;

pub const V1_LAST_PROOF_TS: usize = 144;

pub const V1_PROVEN_RESERVES: usize = 152;

pub const V1_TOTAL_SUPPLY: usize = 160;

pub const V1_PAUSED: usize = 168;

pub const V1_BUMP: usize = 169;

pub const V1_PRICE: usize = 170;

pub const V1_SOL_RECEIVER: usize = 178;

/// The full size of a record written under the prior layout.
pub const V1_RECORD_LEN: usize = 218;

// The current layout. The identity field keeps its offset so that
// validation works on either layout.
pub const V2_AUTHORITY: usize = 8;

pub const V2_OPERATOR: usize = 40;

pub const V2_MINT: usize = 72;

pub const V2_TREASURY: usize = 104;

pub const V2_TOTAL_SUPPLY: usize = 136;

pub const V2_TOTAL_BURNED: usize = 144;

pub const V2_ROOT: usize = 152;

pub const V2_PROVEN_RESERVES: usize = 184;

pub const V2_LAST_ROOT_UPDATE: usize = 192;

pub const V2_LAST_PROOF_TS: usize = 200;

pub const V2_PRICE: usize = 208;

pub const V2_SOL_RECEIVER: usize = 216;

pub const V2_YIELD_BPS: usize = 248;

pub const V2_TOTAL_YIELD: usize = 250;

pub const V2_LAST_YIELD: usize = 258;

pub const V2_PAUSED: usize = 266;

pub const V2_BUMP: usize = 267;

/// The smallest buffer that holds every current-layout field.
pub const V2_MIN_LEN: usize = 268;

/// The size a record is grown to: current layout plus slack for the next
/// version, so the next migration need not resize again.
pub const V2_RECORD_LEN: usize = 512;

/// The semantic content of a record written under the prior layout.
#[derive(Clone, Copy, Debug, PartialEq, Eq, Structural)]
pub struct ProtocolStateV1 {
    pub authority: Bytes32,
    pub w3b_mint: Bytes32,
    pub treasury: Bytes32,
    pub merkle_root: Bytes32,
    pub last_root_update: u64,
    pub last_proof_timestamp: u64,
    pub proven_reserves: u64,
    pub total_supply: u64,
    pub is_paused: bool,
    pub bump: u8,
    pub w3b_price_lamports: u64,
    pub sol_receiver: Bytes32,
}

/// What a buffer says when read through the prior layout's accessors.
pub open spec fn v1_reads(s: Seq<u8>) -> ProtocolStateV1 {
    ProtocolStateV1 {
        authority: bytes32_at(s, V1_AUTHORITY as int),
        w3b_mint: bytes32_at(s, V1_MINT as int),
        treasury: bytes32_at(s, V1_TREASURY as int),
        merkle_root: bytes32_at(s, V1_ROOT as int),
        last_root_update: u64_at(s, V1_LAST_ROOT_UPDATE as int) as u64,
        last_proof_timestamp: u64_at(s, V1_LAST_PROOF_TS as int) as u64,
        proven_reserves: u64_at(s, V1_PROVEN_RESERVES as int) as u64,
        total_supply: u64_at(s, V1_TOTAL_SUPPLY as int) as u64,
        is_paused: s[V1_PAUSED as int] != 0,
        bump: s[V1_BUMP as int],
        w3b_price_lamports: u64_at(s, V1_PRICE as int) as u64,
        sol_receiver: bytes32_at(s, V1_SOL_RECEIVER as int),
    }
}

/// What a buffer says when read through the current layout's accessors.
pub open spec fn v2_reads(s: Seq<u8>) -> ProtocolState {
    ProtocolState {
        authority: bytes32_at(s, V2_AUTHORITY as int),
        operator: bytes32_at(s, V2_OPERATOR as int),
        w3b_mint: bytes32_at(s, V2_MINT as int),
        treasury: bytes32_at(s, V2_TREASURY as int),
        total_supply: u64_at(s, V2_TOTAL_SUPPLY as int) as u64,
        total_burned: u64_at(s, V2_TOTAL_BURNED as int) as u64,
        current_merkle_root: bytes32_at(s, V2_ROOT as int),
        proven_reserves: u64_at(s, V2_PROVEN_RESERVES as int) as u64,
        last_root_update: u64_at(s, V2_LAST_ROOT_UPDATE as int) as u64,
        last_proof_timestamp: u64_at(s, V2_LAST_PROOF_TS as int) as u64,
        w3b_price_lamports: u64_at(s, V2_PRICE as int) as u64,
        sol_receiver: bytes32_at(s, V2_SOL_RECEIVER as int),
        yield_apy_bps: u16_at(s, V2_YIELD_BPS as int) as u16,
        total_yield_distributed: u64_at(s, V2_TOTAL_YIELD as int) as u64,
        last_yield_distribution: u64_at(s, V2_LAST_YIELD as int) as u64,
        is_paused: s[V2_PAUSED as int] != 0,
        bump: s[V2_BUMP as int],
    }
}

/// The state a prior-layout record carries into the current layout: every
/// shared field keeps its value bit-exact, the operator defaults to the
/// authority, and the fields the prior layout lacked start at zero.
pub open spec fn migrated_state(s1: ProtocolStateV1) -> ProtocolState {
    ProtocolState {
        authority: s1.authority,
        operator: s1.authority,
        w3b_mint: s1.w3b_mint,
        treasury: s1.treasury,
        total_supply: s1.total_supply,
        total_burned: 0,
        current_merkle_root: s1.merkle_root,
        proven_reserves: s1.proven_reserves,
        last_root_update: s1.last_root_update,
        last_proof_timestamp: s1.last_proof_timestamp,
        w3b_price_lamports: s1.w3b_price_lamports,
        sol_receiver: s1.sol_receiver,
        yield_apy_bps: 0,
        total_yield_distributed: 0,
        last_yield_distribution: 0,
        is_paused: s1.is_paused,
        bump: s1.bump,
    }
}

/// Reads the identity field directly from the raw bytes, bypassing any
/// structural decode: this works on either layout, and on a record caught
/// mid-migration.
pub fn read_raw_authority(buf: &Vec<u8>) -> (r: Option<Bytes32>)
    ensures
        buf.len() >= V1_AUTHORITY + 32 ==> r == Some(bytes32_at(buf@, V1_AUTHORITY as int)),
        buf.len() < V1_AUTHORITY + 32 ==> r is None,
{
    if buf.len() < V1_AUTHORITY + 32 {
        return None;
    }
    Some(get_bytes32(buf, V1_AUTHORITY))
}

/// Writes a prior-layout record for the given state: the discriminator
/// bytes are zero and every field sits at its prior-layout offset.
pub fn encode_v1(s: &ProtocolStateV1) -> (r: Vec<u8>)
    ensures
        r@.len() == V1_RECORD_LEN,
        v1_reads(r@) == *s,
{
    let mut buf = zeroed_record(V1_RECORD_LEN);
    put_bytes32(&mut buf, V1_AUTHORITY, s.authority);
    put_bytes32(&mut buf, V1_MINT, s.w3b_mint);
    put_bytes32(&mut buf, V1_TREASURY, s.treasury);
    put_bytes32(&mut buf, V1_ROOT, s.merkle_root);
    put_u64(&mut buf, V1_LAST_ROOT_UPDATE, s.last_root_update);
    put_u64(&mut buf, V1_LAST_PROOF_TS, s.last_proof_timestamp);
    put_u64(&mut buf, V1_PROVEN_RESERVES, s.proven_reserves);
    put_u64(&mut buf, V1_TOTAL_SUPPLY, s.total_supply);
    put_byte(&mut buf, V1_PAUSED, if s.is_paused { 1 } else { 0 });
    put_byte(&mut buf, V1_BUMP, s.bump);
    put_u64(&mut buf, V1_PRICE, s.w3b_price_lamports);
    put_bytes32(&mut buf, V1_SOL_RECEIVER, s.sol_receiver);
    buf
}

/// Writes a current-layout record for the given state: the discriminator
/// bytes are zero, every field sits at its current-layout offset, and the
/// slack beyond the fields is zero.
#[verifier::rlimit(60)]
pub fn encode_v2(s: &ProtocolState) -> (r: Vec<u8>)
    ensures
        r@.len() == V2_RECORD_LEN,
        v2_reads(r@) == *s,
{
    let mut buf = zeroed_record(V2_RECORD_LEN);
    put_bytes32(&mut buf, V2_AUTHORITY, s.authority);
    put_bytes32(&mut buf, V2_OPERATOR, s.operator);
    put_bytes32(&mut buf, V2_MINT, s.w3b_mint);
    put_bytes32(&mut buf, V2_TREASURY, s.treasury);
    put_u64(&mut buf, V2_TOTAL_SUPPLY, s.total_supply);
    put_u64(&mut buf, V2_TOTAL_BURNED, s.total_burned);
    put_bytes32(&mut buf, V2_ROOT, s.current_merkle_root);
    put_u64(&mut buf, V2_PROVEN_RESERVES, s.proven_reserves);
    put_u64(&mut buf, V2_LAST_ROOT_UPDATE, s.last_root_update);
    put_u64(&mut buf, V2_LAST_PROOF_TS, s.last_proof_timestamp);
    put_u64(&mut buf, V2_PRICE, s.w3b_price_lamports);
    put_bytes32(&mut buf, V2_SOL_RECEIVER, s.sol_receiver);
    put_u16(&mut buf, V2_YIELD_BPS, s.yield_apy_bps);
    put_u64(&mut buf, V2_TOTAL_YIELD, s.total_yield_distributed);
    put_u64(&mut buf, V2_LAST_YIELD, s.last_yield_distribution);
    put_byte(&mut buf, V2_PAUSED, if s.is_paused { 1 } else { 0 });
    put_byte(&mut buf, V2_BUMP, s.bump);
    buf
}

/// Reads a current-layout record, refusing a buffer too short to hold
/// every field.
pub fn decode_v2(buf: &Vec<u8>) -> (r: Option<ProtocolState>)
    ensures
        buf.len() >= V2_MIN_LEN ==> r == Some(v2_reads(buf@)),
        buf.len() < V2_MIN_LEN ==> r is None,
{
    if buf.len() < V2_MIN_LEN {
        return None;
    }
    let paused_byte: u8 = buf[V2_PAUSED];
    Some(ProtocolState {
        authority: get_bytes32(buf, V2_AUTHORITY),
        operator: get_bytes32(buf, V2_OPERATOR),
        w3b_mint: get_bytes32(buf, V2_MINT),
        treasury: get_bytes32(buf, V2_TREASURY),
        total_supply: get_u64(buf, V2_TOTAL_SUPPLY),
        total_burned: get_u64(buf, V2_TOTAL_BURNED),
        current_merkle_root: get_bytes32(buf, V2_ROOT),
        proven_reserves: get_u64(buf, V2_PROVEN_RESERVES),
        last_root_update: get_u64(buf, V2_LAST_ROOT_UPDATE),
        last_proof_timestamp: get_u64(buf, V2_LAST_PROOF_TS),
        w3b_price_lamports: get_u64(buf, V2_PRICE),
        sol_receiver: get_bytes32(buf, V2_SOL_RECEIVER),
        yield_apy_bps: get_u16(buf, V2_YIELD_BPS),
        total_yield_distributed: get_u64(buf, V2_TOTAL_YIELD),
        last_yield_distribution: get_u64(buf, V2_LAST_YIELD),
        is_paused: paused_byte != 0,
        bump: buf[V2_BUMP],
    })
}

/// The lamports the caller must add so the resized record meets the
/// platform's minimum balance for its new size.
pub open spec fn resize_shortfall(record_lamports: u64, rent_min_new: u64) -> u64 {
    if record_lamports < rent_min_new {
        (rent_min_new - record_lamports) as u64
    } else {
        0
    }
}

/// The resize-only migration step.
///
/// Validates the caller against the raw identity field, then grows the
/// record to the new size with zeroed slack (or trims an oversized one)
/// and returns the balance shortfall the caller must transfer onto the
/// record so the platform accepts the new size. On any refusal the buffer
/// is untouched.
pub fn migrate_v2(
    buf: &mut Vec<u8>,
    caller: Bytes32,
    record_lamports: u64,
    rent_min_new: u64,
) -> (r: Result<u64, W3BError>)
    ensures
        r is Ok ==> old(buf).len() >= V1_AUTHORITY + 32
            && bytes32_at(old(buf)@, V1_AUTHORITY as int) == caller
            && final(buf)@.len() == V2_RECORD_LEN
            && (forall|j: int|
                0 <= j < old(buf)@.len() && j < V2_RECORD_LEN ==> final(buf)@[j] == old(buf)@[j])
            && (forall|j: int| old(buf)@.len() <= j < V2_RECORD_LEN ==> final(buf)@[j] == 0)
            && r->Ok_0 == resize_shortfall(record_lamports, rent_min_new),
        r is Err ==> *final(buf) == *old(buf) && r->Err_0 == W3BError::Unauthorized && !(old(
            buf,
        ).len() >= V1_AUTHORITY + 32 && bytes32_at(old(buf)@, V1_AUTHORITY as int) == caller),
{
    if buf.len() < V1_AUTHORITY + 32 {
        return Err(W3BError::Unauthorized);
    }
    let stored = get_bytes32(buf, V1_AUTHORITY);
    if !(stored == caller) {
        return Err(W3BError::Unauthorized);
    }
    let shortfall = if record_lamports < rent_min_new {
        rent_min_new - record_lamports
    } else {
        0
    };
    resize_record(buf, V2_RECORD_LEN);
    Ok(shortfall)
}

/// The remap-only migration step.
///
/// Validates the caller against the raw identity field — stable across
/// both layouts — then reads every prior-layout field at its old offset
/// into locals, zeroes the whole data region, and writes each field at its
/// new offset: afterwards the buffer reads, through the current layout's
/// accessors, as exactly the migrated state of what the prior layout's
/// accessors saw, and the discriminator bytes are untouched. A buffer too
/// short for the current layout, or one whose identity field disagrees
/// with the caller, is refused untouched.
pub fn fix_v2_layout(buf: &mut Vec<u8>, caller: Bytes32) -> (r: Result<(), W3BError>)
    ensures
        r is Ok ==> old(buf).len() >= V2_MIN_LEN
            && bytes32_at(old(buf)@, V1_AUTHORITY as int) == caller
            && final(buf)@.len() == old(buf)@.len()
            && (forall|j: int| 0 <= j < DISCRIMINATOR_LEN ==> final(buf)@[j] == old(buf)@[j])
            && v2_reads(final(buf)@) == migrated_state(v1_reads(old(buf)@)),
        r is Err ==> *final(buf) == *old(buf) && r->Err_0 == W3BError::Unauthorized && !(old(
            buf,
        ).len() >= V2_MIN_LEN && bytes32_at(old(buf)@, V1_AUTHORITY as int) == caller),
{
    if buf.len() < V2_MIN_LEN {
        return Err(W3BError::Unauthorized);
    }
    let stored = get_bytes32(buf, V1_AUTHORITY);
    if !(stored == caller) {
        return Err(W3BError::Unauthorized);
    }
    let w3b_mint = get_bytes32(buf, V1_MINT);
    let treasury = get_bytes32(buf, V1_TREASURY);
    let merkle_root = get_bytes32(buf, V1_ROOT);
    let last_root_update = get_u64(buf, V1_LAST_ROOT_UPDATE);
    let last_proof_ts = get_u64(buf, V1_LAST_PROOF_TS);
    let proven_reserves = get_u64(buf, V1_PROVEN_RESERVES);
    let total_supply = get_u64(buf, V1_TOTAL_SUPPLY);
    let paused_byte: u8 = buf[V1_PAUSED];
    let bump_byte: u8 = buf[V1_BUMP];
    let price = get_u64(buf, V1_PRICE);
    let sol_receiver = get_bytes32(buf, V1_SOL_RECEIVER);
    zero_fill_from(buf, DISCRIMINATOR_LEN);
    put_bytes32(buf, V2_AUTHORITY, stored);
    put_bytes32(buf, V2_OPERATOR, stored);
    put_bytes32(buf, V2_MINT, w3b_mint);
    put_bytes32(buf, V2_TREASURY, treasury);
    put_u64(buf, V2_TOTAL_SUPPLY, total_supply);
    put_bytes32(buf, V2_ROOT, merkle_root);
    put_u64(buf, V2_PROVEN_RESERVES, proven_reserves);
    put_u64(buf, V2_LAST_ROOT_UPDATE, last_root_update);
    put_u64(buf, V2_LAST_PROOF_TS, last_proof_ts);
    put_u64(buf, V2_PRICE, price);
    put_bytes32(buf, V2_SOL_RECEIVER, sol_receiver);
    put_byte(buf, V2_PAUSED, paused_byte);
    put_byte(buf, V2_BUMP, bump_byte);
    proof {
        assert forall|i: int| V2_TOTAL_BURNED <= i < V2_TOTAL_BURNED + 8 implies buf@[i] == 0 by {}
        lemma_le_val_zero(buf@, V2_TOTAL_BURNED as int, 8);
        assert forall|i: int| V2_YIELD_BPS <= i < V2_YIELD_BPS + 2 implies buf@[i] == 0 by {}
        lemma_le_val_zero(buf@, V2_YIELD_BPS as int, 2);
        assert forall|i: int| V2_TOTAL_YIELD <= i < V2_TOTAL_YIELD + 8 implies buf@[i] == 0 by {}
        lemma_le_val_zero(buf@, V2_TOTAL_YIELD as int, 8);
        assert forall|i: int| V2_LAST_YIELD <= i < V2_LAST_YIELD + 8 implies buf@[i] == 0 by {}
        lemma_le_val_zero(buf@, V2_LAST_YIELD as int, 8);
        assert(v2_reads(buf@) == migrated_state(v1_reads(old(buf)@)));
    }
    Ok(())
}

} // verus!
