//! The migration engine: raw-byte identity validation, resize, remap, and
//! the layout round trip.

use w3b_protocol::bytes32::Bytes32;
use w3b_protocol::errors::W3BError;
use w3b_protocol::layout::{
    decode_v2, encode_v1, encode_v2, fix_v2_layout, migrate_v2, read_raw_authority,
    ProtocolStateV1, V1_RECORD_LEN, V2_RECORD_LEN,
};
use w3b_protocol::state::{initialize_v2, ProtocolState};

fn key(n: u64) -> Bytes32 {
    Bytes32 {
        w0: n,
        w1: 0x1111_2222_3333_4444,
        w2: n.wrapping_mul(0x9e37_79b9),
        w3: 0xfedc_ba98_7654_3210,
    }
}

fn sample_v1() -> ProtocolStateV1 {
    ProtocolStateV1 {
        authority: key(1),
        w3b_mint: key(2),
        treasury: key(3),
        merkle_root: key(4),
        last_root_update: 1_700_000_000,
        last_proof_timestamp: 1_700_000_100,
        proven_reserves: 123_456_789,
        total_supply: 98_765_432,
        is_paused: true,
        bump: 252,
        w3b_price_lamports: 5_000_000,
        sol_receiver: key(5),
    }
}

#[test]
fn migration_round_trip_preserves_every_shared_field() {
    let s1 = sample_v1();
    let mut buf = encode_v1(&s1);
    assert_eq!(buf.len(), V1_RECORD_LEN);
    let shortfall = migrate_v2(&mut buf, s1.authority, 100, 350).unwrap();
    assert_eq!(shortfall, 250);
    assert_eq!(buf.len(), V2_RECORD_LEN);
    fix_v2_layout(&mut buf, s1.authority).unwrap();
    let s2 = decode_v2(&buf).unwrap();
    assert_eq!(s2.authority, s1.authority);
    assert_eq!(s2.w3b_mint, s1.w3b_mint);
    assert_eq!(s2.treasury, s1.treasury);
    assert_eq!(s2.current_merkle_root, s1.merkle_root);
    assert_eq!(s2.last_root_update, s1.last_root_update);
    assert_eq!(s2.last_proof_timestamp, s1.last_proof_timestamp);
    assert_eq!(s2.proven_reserves, s1.proven_reserves);
    assert_eq!(s2.total_supply, s1.total_supply);
    assert_eq!(s2.is_paused, s1.is_paused);
    assert_eq!(s2.bump, s1.bump);
    assert_eq!(s2.w3b_price_lamports, s1.w3b_price_lamports);
    assert_eq!(s2.sol_receiver, s1.sol_receiver);
    // Fields the prior layout lacked: operator defaults to the authority,
    // the new counters start at zero.
    assert_eq!(s2.operator, s1.authority);
    assert_eq!(s2.total_burned, 0);
    assert_eq!(s2.yield_apy_bps, 0);
    assert_eq!(s2.total_yield_distributed, 0);
    assert_eq!(s2.last_yield_distribution, 0);
}

#[test]
fn migration_preserves_discriminator_bytes() {
    let s1 = sample_v1();
    let mut buf = encode_v1(&s1);
    for i in 0..8 {
        buf[i] = 0xa0 + i as u8;
    }
    migrate_v2(&mut buf, s1.authority, 0, 0).unwrap();
    fix_v2_layout(&mut buf, s1.authority).unwrap();
    for i in 0..8 {
        assert_eq!(buf[i], 0xa0 + i as u8);
    }
}

#[test]
fn migrate_validates_identity_from_raw_bytes() {
    let s1 = sample_v1();
    let mut buf = encode_v1(&s1);
    let before = buf.clone();
    assert_eq!(
        migrate_v2(&mut buf, key(99), 0, 0).unwrap_err(),
        W3BError::Unauthorized
    );
    assert_eq!(buf, before);
}

#[test]
fn migrate_refuses_a_buffer_without_identity_field() {
    let mut buf = vec![0u8; 39];
    assert_eq!(
        migrate_v2(&mut buf, key(1), 0, 0).unwrap_err(),
        W3BError::Unauthorized
    );
    assert_eq!(buf.len(), 39);
}

#[test]
fn migrate_shortfall_is_zero_when_balance_suffices() {
    let s1 = sample_v1();
    let mut buf = encode_v1(&s1);
    let shortfall = migrate_v2(&mut buf, s1.authority, 500, 350).unwrap();
    assert_eq!(shortfall, 0);
}

#[test]
fn migrate_zeroes_the_grown_region() {
    let s1 = sample_v1();
    let mut buf = encode_v1(&s1);
    migrate_v2(&mut buf, s1.authority, 0, 0).unwrap();
    for i in V1_RECORD_LEN..V2_RECORD_LEN {
        assert_eq!(buf[i], 0);
    }
}

#[test]
fn remap_refuses_an_unresized_buffer() {
    let s1 = sample_v1();
    // Still prior-layout size: too short for the current layout's fields.
    let mut buf = encode_v1(&s1);
    assert_eq!(
        fix_v2_layout(&mut buf, s1.authority).unwrap_err(),
        W3BError::Unauthorized
    );
}

#[test]
fn remap_validates_identity_from_raw_bytes() {
    let s1 = sample_v1();
    let mut buf = encode_v1(&s1);
    migrate_v2(&mut buf, s1.authority, 0, 0).unwrap();
    let before = buf.clone();
    assert_eq!(
        fix_v2_layout(&mut buf, key(99)).unwrap_err(),
        W3BError::Unauthorized
    );
    assert_eq!(buf, before);
}

#[test]
fn identity_survives_remap_for_revalidation() {
    // The identity field keeps its offset across both layouts, so the
    // validation step works again on an already-remapped record.
    let s1 = sample_v1();
    let mut buf = encode_v1(&s1);
    migrate_v2(&mut buf, s1.authority, 0, 0).unwrap();
    fix_v2_layout(&mut buf, s1.authority).unwrap();
    assert_eq!(read_raw_authority(&buf), Some(s1.authority));
}

#[test]
fn read_raw_authority_handles_short_buffers() {
    let buf = vec![0u8; 39];
    assert_eq!(read_raw_authority(&buf), None);
    let s1 = sample_v1();
    let v1 = encode_v1(&s1);
    assert_eq!(read_raw_authority(&v1), Some(s1.authority));
}

#[test]
fn current_layout_round_trips_through_bytes() {
    let auth = key(1);
    let mut s = initialize_v2(auth, key(2), key(3), 249);
    s.total_supply = 77;
    s.total_burned = 33;
    s.proven_reserves = 80;
    s.last_root_update = 11;
    s.last_proof_timestamp = 22;
    s.w3b_price_lamports = 44;
    s.yield_apy_bps = 350;
    s.total_yield_distributed = 55;
    s.last_yield_distribution = 66;
    s.is_paused = true;
    let buf = encode_v2(&s);
    assert_eq!(buf.len(), V2_RECORD_LEN);
    let s2: ProtocolState = decode_v2(&buf).unwrap();
    assert_eq!(s2, s);
}

#[test]
fn decode_refuses_a_short_buffer() {
    let buf = vec![0u8; 200];
    assert!(decode_v2(&buf).is_none());
}

#[test]
fn prior_layout_offsets_are_bit_exact() {
    // The wire contract: each field sits at its documented offset,
    // little-endian.
    let mut s1 = sample_v1();
    s1.total_supply = 0x0102_0304_0506_0708;
    s1.proven_reserves = 0x1112_1314_1516_1718;
    let buf = encode_v1(&s1);
    // authority at byte 8, word 0 little-endian.
    assert_eq!(buf[8], (s1.authority.w0 & 0xff) as u8);
    // proven reserves at bytes 152..160.
    assert_eq!(
        &buf[152..160],
        &[0x18, 0x17, 0x16, 0x15, 0x14, 0x13, 0x12, 0x11]
    );
    // total supply at bytes 160..168.
    assert_eq!(
        &buf[160..168],
        &[0x08, 0x07, 0x06, 0x05, 0x04, 0x03, 0x02, 0x01]
    );
    // paused flag and bump bytes.
    assert_eq!(buf[168], 1);
    assert_eq!(buf[169], 252);
}

#[test]
fn current_layout_offsets_are_bit_exact() {
    let s1 = sample_v1();
    let mut buf = encode_v1(&s1);
    migrate_v2(&mut buf, s1.authority, 0, 0).unwrap();
    fix_v2_layout(&mut buf, s1.authority).unwrap();
    // total supply moved from bytes 160..168 to 136..144.
    let supply = u64::from_le_bytes(buf[136..144].try_into().unwrap());
    assert_eq!(supply, s1.total_supply);
    // total burned, new in this layout, is zero at 144..152.
    assert_eq!(&buf[144..152], &[0u8; 8]);
    // the operator copy of the authority sits at 40..72.
    assert_eq!(buf[40..72], buf[8..40]);
    // paused flag moved to byte 266, bump to 267.
    assert_eq!(buf[266], 1);
    assert_eq!(buf[267], 252);
}
