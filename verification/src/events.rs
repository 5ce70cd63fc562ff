//! Audit events: one per state-changing operation, carrying enough fields
//! to reconstruct the transition. Each operation returns its event; the
//! surrounding platform appends it to the audit stream.

use vstd::prelude::*;

use crate::bytes32::Bytes32;

verus! {

/// A new attestation root and reserve count were recorded.
#[derive(Clone, Debug, PartialEq, Eq, Structural)]
pub struct MerkleRootUpdated {
    pub root: Bytes32,
    pub total_serials: u64,
    pub timestamp: u64,
}

/// A reserve proof agreeing with the recorded root was accepted.
#[derive(Clone, Debug, PartialEq, Eq)]
pub struct ProofSubmitted {
    pub merkle_root: Bytes32,
    pub claimed_reserves: u64,
    pub proof_hash: Vec<u8>,
    pub timestamp: u64,
}

/// Tokens were minted against proven reserves.
#[derive(Clone, Debug, PartialEq, Eq, Structural)]
pub struct TokensMinted {
    pub amount: u64,
    pub new_total_supply: u64,
    pub timestamp: u64,
}

/// A buyer swapped native currency for tokens.
#[derive(Clone, Debug, PartialEq, Eq, Structural)]
pub struct TokensPurchased {
    pub buyer: Bytes32,
    pub amount: u64,
    pub lamports_paid: u64,
    pub timestamp: u64,
}

/// Tokens were burned and a redemption request opened.
#[derive(Clone, Debug, PartialEq, Eq, Structural)]
pub struct TokensBurned {
    pub user: Bytes32,
    pub amount: u64,
    pub request_id: u64,
    pub timestamp: u64,
}

/// A fulfiller claimed a pending redemption request.
#[derive(Clone, Debug, PartialEq, Eq, Structural)]
pub struct RedemptionClaimed {
    pub request_id: u64,
    pub fulfiller: Bytes32,
    pub timestamp: u64,
}

/// Delivery of a claimed redemption was confirmed.
#[derive(Clone, Debug, PartialEq, Eq, Structural)]
pub struct RedemptionConfirmed {
    pub request_id: u64,
    pub fulfiller: Bytes32,
    pub timestamp: u64,
}

/// A redemption request was cancelled; burned tokens are not restored.
#[derive(Clone, Debug, PartialEq, Eq, Structural)]
pub struct RedemptionCancelled {
    pub request_id: u64,
    pub timestamp: u64,
}

/// The informational yield rate was changed.
#[derive(Clone, Debug, PartialEq, Eq, Structural)]
pub struct YieldRateUpdated {
    pub apy_bps: u16,
    pub timestamp: u64,
}

/// An off-ledger yield distribution was recorded.
#[derive(Clone, Debug, PartialEq, Eq, Structural)]
pub struct YieldDistributed {
    pub amount: u64,
    pub new_total: u64,
    pub timestamp: u64,
}

} // verus!
