//! The reserve and supply guard, end to end on concrete values.

use w3b_protocol::bytes32::Bytes32;
use w3b_protocol::errors::W3BError;
use w3b_protocol::ledger::{
    close_protocol_state, mint_w3b, record_yield_distribution, set_operator, set_paused,
    set_sol_receiver, set_treasury, set_w3b_price, set_w3b_price_admin, set_yield_rate,
    submit_proof, update_merkle_root,
};
use w3b_protocol::state::{initialize_v2, ProtocolState};

fn key(n: u64) -> Bytes32 {
    Bytes32 { w0: n, w1: n + 1, w2: n + 2, w3: n + 3 }
}

fn fresh_state() -> ProtocolState {
    initialize_v2(key(1), key(100), key(200), 251)
}

/// A state with proven reserves and a fresh proof, ready to mint.
fn proven_state(reserves: u64, now: u64) -> ProtocolState {
    let auth = key(1);
    let mut s = fresh_state();
    update_merkle_root(&mut s, auth, key(300), reserves, now).unwrap();
    submit_proof(&mut s, auth, vec![0xab, 0xcd], reserves, now).unwrap();
    s
}

#[test]
fn initialize_sets_roles_and_zero_counters() {
    let s = fresh_state();
    assert_eq!(s.authority, key(1));
    assert_eq!(s.operator, key(1));
    assert_eq!(s.sol_receiver, key(1));
    assert_eq!(s.w3b_mint, key(100));
    assert_eq!(s.treasury, key(200));
    assert_eq!(s.total_supply, 0);
    assert_eq!(s.total_burned, 0);
    assert_eq!(s.proven_reserves, 0);
    assert_eq!(s.w3b_price_lamports, 0);
    assert!(!s.is_paused);
    assert_eq!(s.bump, 251);
}

#[test]
fn mint_bounded_by_reserves_scenario() {
    let auth = key(1);
    let mut s = proven_state(100, 1_000);
    assert!(mint_w3b(&mut s, auth, 60, 2_000).is_ok());
    assert_eq!(s.total_supply, 60);
    assert_eq!(
        mint_w3b(&mut s, auth, 50, 2_000).unwrap_err(),
        W3BError::InsufficientReserves
    );
    assert_eq!(s.total_supply, 60);
    assert!(mint_w3b(&mut s, auth, 40, 2_000).is_ok());
    assert_eq!(s.total_supply, 100);
}

#[test]
fn mint_event_reports_new_supply() {
    let auth = key(1);
    let mut s = proven_state(100, 1_000);
    let ev = mint_w3b(&mut s, auth, 60, 2_000).unwrap();
    assert_eq!(ev.amount, 60);
    assert_eq!(ev.new_total_supply, 60);
    assert_eq!(ev.timestamp, 2_000);
}

#[test]
fn mint_frozen_once_proof_is_stale() {
    let auth = key(1);
    let mut s = proven_state(100, 1_000);
    // 48 hours after the proof, to the second: already stale.
    assert_eq!(
        mint_w3b(&mut s, auth, 10, 1_000 + 172_800).unwrap_err(),
        W3BError::StaleMerkleRoot
    );
    // One second inside the window: still fresh.
    assert!(mint_w3b(&mut s, auth, 10, 1_000 + 172_799).is_ok());
}

#[test]
fn mint_requires_operator() {
    let mut s = proven_state(100, 1_000);
    assert_eq!(
        mint_w3b(&mut s, key(99), 10, 2_000).unwrap_err(),
        W3BError::Unauthorized
    );
    assert_eq!(s.total_supply, 0);
}

#[test]
fn mint_blocked_while_paused() {
    let auth = key(1);
    let mut s = proven_state(100, 1_000);
    set_paused(&mut s, auth, true).unwrap();
    assert_eq!(
        mint_w3b(&mut s, auth, 10, 2_000).unwrap_err(),
        W3BError::ProtocolPaused
    );
}

#[test]
fn mint_overflow_is_detected() {
    let auth = key(1);
    let mut s = proven_state(u64::MAX, 1_000);
    assert!(mint_w3b(&mut s, auth, u64::MAX, 2_000).is_ok());
    assert_eq!(
        mint_w3b(&mut s, auth, 1, 2_000).unwrap_err(),
        W3BError::MathOverflow
    );
}

#[test]
fn update_merkle_root_replaces_reserves_and_stamps_time() {
    let auth = key(1);
    let mut s = fresh_state();
    let ev = update_merkle_root(&mut s, auth, key(300), 77, 5_000).unwrap();
    assert_eq!(s.current_merkle_root, key(300));
    assert_eq!(s.proven_reserves, 77);
    assert_eq!(s.last_root_update, 5_000);
    assert_eq!(ev.root, key(300));
    assert_eq!(ev.total_serials, 77);
    assert_eq!(ev.timestamp, 5_000);
}

#[test]
fn update_merkle_root_may_revise_reserves_downward() {
    let auth = key(1);
    let mut s = proven_state(100, 1_000);
    mint_w3b(&mut s, auth, 80, 2_000).unwrap();
    // A later attestation disproves part of the reserves: full replacement,
    // even below the issued supply.
    update_merkle_root(&mut s, auth, key(301), 50, 3_000).unwrap();
    assert_eq!(s.proven_reserves, 50);
    assert_eq!(s.total_supply, 80);
    // Issuance is then frozen until reserves recover.
    assert_eq!(
        mint_w3b(&mut s, auth, 1, 3_500).unwrap_err(),
        W3BError::InsufficientReserves
    );
}

#[test]
fn update_merkle_root_blocked_while_paused() {
    let auth = key(1);
    let mut s = fresh_state();
    set_paused(&mut s, auth, true).unwrap();
    assert_eq!(
        update_merkle_root(&mut s, auth, key(300), 10, 1_000).unwrap_err(),
        W3BError::ProtocolPaused
    );
}

#[test]
fn submit_proof_rejects_mismatched_claim() {
    let auth = key(1);
    let mut s = fresh_state();
    update_merkle_root(&mut s, auth, key(300), 100, 1_000).unwrap();
    assert_eq!(
        submit_proof(&mut s, auth, vec![1, 2, 3], 99, 1_500).unwrap_err(),
        W3BError::ReserveCountMismatch
    );
    assert_eq!(s.last_proof_timestamp, 0);
    let ev = submit_proof(&mut s, auth, vec![1, 2, 3], 100, 1_500).unwrap();
    assert_eq!(s.last_proof_timestamp, 1_500);
    assert_eq!(ev.proof_hash, vec![1, 2, 3]);
    assert_eq!(ev.claimed_reserves, 100);
    assert_eq!(ev.merkle_root, key(300));
}

#[test]
fn price_change_bounded_scenario() {
    let auth = key(1);
    let mut s = fresh_state();
    assert!(set_w3b_price(&mut s, auth, 100).is_ok());
    assert!(set_w3b_price(&mut s, auth, 119).is_ok());
    assert_eq!(s.w3b_price_lamports, 119);
    assert_eq!(
        set_w3b_price(&mut s, auth, 200).unwrap_err(),
        W3BError::PriceChangeExceedsLimit
    );
    assert_eq!(s.w3b_price_lamports, 119);
    assert!(set_w3b_price_admin(&mut s, auth, 200).is_ok());
    assert_eq!(s.w3b_price_lamports, 200);
}

#[test]
fn price_rejects_zero_on_bounded_path() {
    let auth = key(1);
    let mut s = fresh_state();
    assert_eq!(
        set_w3b_price(&mut s, auth, 0).unwrap_err(),
        W3BError::InvalidPrice
    );
}

#[test]
fn price_first_setting_is_unbounded() {
    let auth = key(1);
    let mut s = fresh_state();
    assert!(set_w3b_price(&mut s, auth, 1_000_000).is_ok());
    assert_eq!(s.w3b_price_lamports, 1_000_000);
}

#[test]
fn price_bound_is_exactly_a_fifth() {
    let auth = key(1);
    let mut s = fresh_state();
    set_w3b_price(&mut s, auth, 100).unwrap();
    // 100 / 5 = 20: a move of 20 passes, a move of 21 does not.
    assert!(set_w3b_price(&mut s, auth, 80).is_ok());
    set_w3b_price_admin(&mut s, auth, 100).unwrap();
    assert_eq!(
        set_w3b_price(&mut s, auth, 121).unwrap_err(),
        W3BError::PriceChangeExceedsLimit
    );
    assert!(set_w3b_price(&mut s, auth, 120).is_ok());
}

#[test]
fn operator_key_rotation_grants_and_keeps_powers() {
    let auth = key(1);
    let op = key(50);
    let mut s = proven_state(100, 1_000);
    // A stranger cannot rotate the key; only the administrator can.
    assert_eq!(
        set_operator(&mut s, op, op).unwrap_err(),
        W3BError::Unauthorized
    );
    set_operator(&mut s, auth, op).unwrap();
    assert!(mint_w3b(&mut s, op, 10, 2_000).is_ok());
    // The authority always retains operator powers.
    assert!(mint_w3b(&mut s, auth, 10, 2_000).is_ok());
}

#[test]
fn admin_setters_check_authority() {
    let mut s = fresh_state();
    assert_eq!(
        set_paused(&mut s, key(99), true).unwrap_err(),
        W3BError::Unauthorized
    );
    assert_eq!(
        set_sol_receiver(&mut s, key(99), key(7)).unwrap_err(),
        W3BError::Unauthorized
    );
    assert_eq!(
        set_treasury(&mut s, key(99), key(7)).unwrap_err(),
        W3BError::Unauthorized
    );
    assert_eq!(
        set_w3b_price_admin(&mut s, key(99), 5).unwrap_err(),
        W3BError::Unauthorized
    );
    assert_eq!(
        set_yield_rate(&mut s, key(99), 350, 1_000).unwrap_err(),
        W3BError::Unauthorized
    );
    let auth = key(1);
    set_sol_receiver(&mut s, auth, key(7)).unwrap();
    assert_eq!(s.sol_receiver, key(7));
    set_treasury(&mut s, auth, key(8)).unwrap();
    assert_eq!(s.treasury, key(8));
    let ev = set_yield_rate(&mut s, auth, 350, 1_000).unwrap();
    assert_eq!(s.yield_apy_bps, 350);
    assert_eq!(ev.apy_bps, 350);
}

#[test]
fn yield_distribution_accumulates_and_detects_overflow() {
    let auth = key(1);
    let mut s = fresh_state();
    let ev = record_yield_distribution(&mut s, auth, 40, 1_000).unwrap();
    assert_eq!(ev.new_total, 40);
    record_yield_distribution(&mut s, auth, 2, 1_100).unwrap();
    assert_eq!(s.total_yield_distributed, 42);
    assert_eq!(s.last_yield_distribution, 1_100);
    assert_eq!(
        record_yield_distribution(&mut s, auth, u64::MAX, 1_200).unwrap_err(),
        W3BError::MathOverflow
    );
    assert_eq!(s.total_yield_distributed, 42);
}

#[test]
fn close_requires_authority() {
    let s = fresh_state();
    assert_eq!(
        close_protocol_state(s, key(99)).unwrap_err(),
        W3BError::Unauthorized
    );
    let s2 = fresh_state();
    assert!(close_protocol_state(s2, key(1)).is_ok());
}
