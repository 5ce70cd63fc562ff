//! A 32-byte word: the address of an account and the commitment root of an
//! attestation are both opaque 32-byte values, held as four 64-bit words in
//! little-endian order.

use vstd::prelude::*;

verus! {

/// An opaque 32-byte value: an account address or a commitment root.
///
/// Word `w0` covers the lowest eight bytes of the 32-byte encoding, `w3`
/// the highest; each word is little-endian within its eight bytes.
#[derive(Clone, Copy, Debug, PartialEq, Eq, Structural)]
pub struct Bytes32 {
    pub w0: u64,
    pub w1: u64,
    pub w2: u64,
    pub w3: u64,
}

impl Bytes32 {
    /// The all-zero value: the default address, and the root before any
    /// attestation has been recorded.
    pub fn zero() -> (r: Bytes32)
        ensures
            r == Bytes32::zero_spec(),
    {
        Bytes32 { w0: 0, w1: 0, w2: 0, w3: 0 }
    }

    pub open spec fn zero_spec() -> Bytes32 {
        Bytes32 { w0: 0, w1: 0, w2: 0, w3: 0 }
    }
}

} // verus!
