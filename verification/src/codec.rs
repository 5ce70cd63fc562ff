//! Little-endian byte access into a raw record buffer.
//!
//! The persisted record formats are fixed-offset binary layouts. Reads and
//! writes here are specified against [`le_val`], the little-endian value of
//! a byte range; every writer also states that all disjoint ranges keep
//! their value, which lets a chain of field writes carry every earlier
//! field's value through to the final buffer.

use vstd::prelude::*;

use crate::bytes32::Bytes32;

verus! {

/// The value of the `n` bytes starting at `off`, little-endian.
pub open spec fn le_val(s: Seq<u8>, off: int, n: nat) -> nat
    decreases n,
{
    if n == 0 {
        0
    } else {
        (s[off] + 256 * le_val(s, off + 1, (n - 1) as nat)) as nat
    }
}

/// The value of an eight-byte field at `off`.
pub open spec fn u64_at(s: Seq<u8>, off: int) -> nat {
    le_val(s, off, 8)
}

/// The value of a two-byte field at `off`.
pub open spec fn u16_at(s: Seq<u8>, off: int) -> nat {
    le_val(s, off, 2)
}

/// The 32-byte value at `off`, as four little-endian words.
pub open spec fn bytes32_at(s: Seq<u8>, off: int) -> Bytes32 {
    Bytes32 {
        w0: le_val(s, off, 8) as u64,
        w1: le_val(s, off + 8, 8) as u64,
        w2: le_val(s, off + 16, 8) as u64,
        w3: le_val(s, off + 24, 8) as u64,
    }
}

/// A range's value depends only on the bytes in the range.
pub proof fn lemma_le_val_congruence(s1: Seq<u8>, s2: Seq<u8>, off: int, n: nat)
    requires
        forall|i: int| off <= i < off + n ==> s1[i] == s2[i],
    ensures
        le_val(s1, off, n) == le_val(s2, off, n),
    decreases n,
{
    if n > 0 {
        assert(s1[off] == s2[off]);
        lemma_le_val_congruence(s1, s2, off + 1, (n - 1) as nat);
    }
}

/// A range of zero bytes has value zero.
pub proof fn lemma_le_val_zero(s: Seq<u8>, off: int, n: nat)
    requires
        forall|i: int| off <= i < off + n ==> s[i] == 0,
    ensures
        le_val(s, off, n) == 0,
    decreases n,
{
    if n > 0 {
        assert(s[off] == 0);
        lemma_le_val_zero(s, off + 1, (n - 1) as nat);
    }
}

/// Reads the eight-byte little-endian field at `off`.
pub fn get_u64(buf: &Vec<u8>, off: usize) -> (r: u64)
    requires
        off + 8 <= buf.len(),
    ensures
        r == u64_at(buf@, off as int),
{
    let b0: u64 = buf[off] as u64;
    let b1: u64 = buf[off + 1] as u64;
    let b2: u64 = buf[off + 2] as u64;
    let b3: u64 = buf[off + 3] as u64;
    let b4: u64 = buf[off + 4] as u64;
    let b5: u64 = buf[off + 5] as u64;
    let b6: u64 = buf[off + 6] as u64;
    let b7: u64 = buf[off + 7] as u64;
    let t6: u64 = b6 + 256 * b7;
    let t5: u64 = b5 + 256 * t6;
    let t4: u64 = b4 + 256 * t5;
    let t3: u64 = b3 + 256 * t4;
    let t2: u64 = b2 + 256 * t3;
    let t1: u64 = b1 + 256 * t2;
    let t0: u64 = b0 + 256 * t1;
    proof {
        reveal_with_fuel(le_val, 9);
    }
    t0
}

/// Reads the two-byte little-endian field at `off`.
pub fn get_u16(buf: &Vec<u8>, off: usize) -> (r: u16)
    requires
        off + 2 <= buf.len(),
    ensures
        r == u16_at(buf@, off as int),
{
    let b0: u16 = buf[off] as u16;
    let b1: u16 = buf[off + 1] as u16;
    proof {
        reveal_with_fuel(le_val, 3);
    }
    b0 + 256 * b1
}

/// Reads the 32-byte value at `off`.
pub fn get_bytes32(buf: &Vec<u8>, off: usize) -> (r: Bytes32)
    requires
        off + 32 <= buf.len(),
    ensures
        r == bytes32_at(buf@, off as int),
{
    Bytes32 {
        w0: get_u64(buf, off),
        w1: get_u64(buf, off + 8),
        w2: get_u64(buf, off + 16),
        w3: get_u64(buf, off + 24),
    }
}

/// Writes `v` as eight little-endian bytes at `off`. Every byte and every
/// byte range outside `[off, off + 8)` keeps its value.
pub fn put_u64(buf: &mut Vec<u8>, off: usize, v: u64)
    requires
        off + 8 <= old(buf).len(),
    ensures
        final(buf)@.len() == old(buf)@.len(),
        u64_at(final(buf)@, off as int) == v,
        forall|j: int|
            0 <= j < old(buf)@.len() && !(off <= j < off + 8) ==> #[trigger] final(buf)@[j]
                == old(buf)@[j],
        forall|o: int, n: nat|
            0 <= o && o + n <= old(buf)@.len() && (o + n <= off || off + 8 <= o)
                ==> #[trigger] le_val(final(buf)@, o, n) == le_val(old(buf)@, o, n),
{
    let b0: u8 = (v % 256) as u8;
    let r1: u64 = v / 256;
    let b1: u8 = (r1 % 256) as u8;
    let r2: u64 = r1 / 256;
    let b2: u8 = (r2 % 256) as u8;
    let r3: u64 = r2 / 256;
    let b3: u8 = (r3 % 256) as u8;
    let r4: u64 = r3 / 256;
    let b4: u8 = (r4 % 256) as u8;
    let r5: u64 = r4 / 256;
    let b5: u8 = (r5 % 256) as u8;
    let r6: u64 = r5 / 256;
    let b6: u8 = (r6 % 256) as u8;
    let r7: u64 = r6 / 256;
    let b7: u8 = (r7 % 256) as u8;
    buf[off] = b0;
    buf[off + 1] = b1;
    buf[off + 2] = b2;
    buf[off + 3] = b3;
    buf[off + 4] = b4;
    buf[off + 5] = b5;
    buf[off + 6] = b6;
    buf[off + 7] = b7;
    proof {
        reveal_with_fuel(le_val, 9);
        assert(le_val(buf@, off as int, 8) == v);
        assert forall|o: int, n: nat|
            0 <= o && o + n <= old(buf)@.len() && (o + n <= off || off + 8 <= o) implies le_val(
            buf@,
            o,
            n,
        ) == le_val(old(buf)@, o, n) by {
            lemma_le_val_congruence(buf@, old(buf)@, o, n);
        }
    }
}

/// Writes `v` as two little-endian bytes at `off`. Every byte and every
/// byte range outside `[off, off + 2)` keeps its value.
pub fn put_u16(buf: &mut Vec<u8>, off: usize, v: u16)
    requires
        off + 2 <= old(buf).len(),
    ensures
        final(buf)@.len() == old(buf)@.len(),
        u16_at(final(buf)@, off as int) == v,
        forall|j: int|
            0 <= j < old(buf)@.len() && !(off <= j < off + 2) ==> #[trigger] final(buf)@[j]
                == old(buf)@[j],
        forall|o: int, n: nat|
            0 <= o && o + n <= old(buf)@.len() && (o + n <= off || off + 2 <= o)
                ==> #[trigger] le_val(final(buf)@, o, n) == le_val(old(buf)@, o, n),
{
    let b0: u8 = (v % 256) as u8;
    let b1: u8 = ((v / 256) % 256) as u8;
    buf[off] = b0;
    buf[off + 1] = b1;
    proof {
        reveal_with_fuel(le_val, 3);
        assert(le_val(buf@, off as int, 2) == v);
        assert forall|o: int, n: nat|
            0 <= o && o + n <= old(buf)@.len() && (o + n <= off || off + 2 <= o) implies le_val(
            buf@,
            o,
            n,
        ) == le_val(old(buf)@, o, n) by {
            lemma_le_val_congruence(buf@, old(buf)@, o, n);
        }
    }
}

/// Writes one byte at `off`. Every byte and every byte range not touching
/// `off` keeps its value.
pub fn put_byte(buf: &mut Vec<u8>, off: usize, b: u8)
    requires
        off < old(buf).len(),
    ensures
        final(buf)@.len() == old(buf)@.len(),
        final(buf)@[off as int] == b,
        forall|j: int|
            0 <= j < old(buf)@.len() && j != off ==> #[trigger] final(buf)@[j] == old(buf)@[j],
        forall|o: int, n: nat|
            0 <= o && o + n <= old(buf)@.len() && (o + n <= off || off + 1 <= o)
                ==> #[trigger] le_val(final(buf)@, o, n) == le_val(old(buf)@, o, n),
{
    buf[off] = b;
    proof {
        assert forall|o: int, n: nat|
            0 <= o && o + n <= old(buf)@.len() && (o + n <= off || off + 1 <= o) implies le_val(
            buf@,
            o,
            n,
        ) == le_val(old(buf)@, o, n) by {
            lemma_le_val_congruence(buf@, old(buf)@, o, n);
        }
    }
}

/// Writes a 32-byte value at `off` as four little-endian words. Every byte
/// and every byte range outside `[off, off + 32)` keeps its value.
pub fn put_bytes32(buf: &mut Vec<u8>, off: usize, k: Bytes32)
    requires
        off + 32 <= old(buf).len(),
    ensures
        final(buf)@.len() == old(buf)@.len(),
        bytes32_at(final(buf)@, off as int) == k,
        forall|j: int|
            0 <= j < old(buf)@.len() && !(off <= j < off + 32) ==> #[trigger] final(buf)@[j]
                == old(buf)@[j],
        forall|o: int, n: nat|
            0 <= o && o + n <= old(buf)@.len() && (o + n <= off || off + 32 <= o)
                ==> #[trigger] le_val(final(buf)@, o, n) == le_val(old(buf)@, o, n),
{
    put_u64(buf, off, k.w0);
    put_u64(buf, off + 8, k.w1);
    put_u64(buf, off + 16, k.w2);
    put_u64(buf, off + 24, k.w3);
}

/// A fresh all-zero record buffer of length `n`.
pub fn zeroed_record(n: usize) -> (r: Vec<u8>)
    ensures
        r@.len() == n,
        forall|j: int| 0 <= j < n ==> r@[j] == 0,
{
    let mut v: Vec<u8> = Vec::new();
    while v.len() < n
        invariant
            v@.len() <= n,
            forall|j: int| 0 <= j < v@.len() ==> v@[j] == 0,
        decreases n - v@.len(),
    {
        v.push(0);
    }
    v
}

/// Zeroes every byte from `start` to the end of the buffer; bytes before
/// `start` keep their value.
pub fn zero_fill_from(buf: &mut Vec<u8>, start: usize)
    requires
        start <= old(buf).len(),
    ensures
        final(buf)@.len() == old(buf)@.len(),
        forall|j: int| 0 <= j < start ==> #[trigger] final(buf)@[j] == old(buf)@[j],
        forall|j: int| start <= j < final(buf)@.len() ==> #[trigger] final(buf)@[j] == 0,
        forall|o: int, n: nat|
            0 <= o && o + n <= start ==> #[trigger] le_val(final(buf)@, o, n) == le_val(
                old(buf)@,
                o,
                n,
            ),
{
    let ghost orig = buf@;
    let mut i: usize = start;
    while i < buf.len()
        invariant
            start <= i <= buf@.len(),
            buf@.len() == orig.len(),
            forall|j: int| 0 <= j < start ==> #[trigger] buf@[j] == orig[j],
            forall|j: int| start <= j < i ==> #[trigger] buf@[j] == 0,
        decreases buf@.len() - i,
    {
        buf[i] = 0;
        i = i + 1;
    }
    proof {
        assert forall|o: int, n: nat| 0 <= o && o + n <= start implies le_val(buf@, o, n)
            == le_val(old(buf)@, o, n) by {
            lemma_le_val_congruence(buf@, old(buf)@, o, n);
        }
    }
}

/// Resizes the buffer to `new_len`: existing bytes up to the new length
/// keep their value, any new bytes are zero.
pub fn resize_record(buf: &mut Vec<u8>, new_len: usize)
    ensures
        final(buf)@.len() == new_len,
        forall|j: int|
            0 <= j < old(buf)@.len() && j < new_len ==> #[trigger] final(buf)@[j] == old(buf)@[j],
        forall|j: int| old(buf)@.len() <= j < new_len ==> #[trigger] final(buf)@[j] == 0,
{
    let ghost orig = buf@;
    if buf.len() > new_len {
        buf.truncate(new_len);
    }
    while buf.len() < new_len
        invariant
            buf@.len() <= new_len,
            orig.len() <= buf@.len() || buf@.len() == new_len,
            forall|j: int| 0 <= j < orig.len() && j < buf@.len() ==> #[trigger] buf@[j] == orig[j],
            forall|j: int| orig.len() <= j < buf@.len() ==> #[trigger] buf@[j] == 0,
        decreases new_len - buf@.len(),
    {
        buf.push(0);
    }
}

} // verus!
