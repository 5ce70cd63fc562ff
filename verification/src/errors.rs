//! The error taxonomy. Every rejected precondition maps to one distinct,
//! stable code; an error always means the operation changed nothing.

use vstd::prelude::*;

verus! {

/// Why an operation was refused. No variant is ever produced after a
/// partial mutation: a rejected operation leaves every record as it was.
#[derive(Clone, Copy, Debug, PartialEq, Eq, Structural)]
pub enum W3BError {
    /// The protocol is paused; supply-affecting and purchase operations
    /// are blocked.
    ProtocolPaused,
    /// The last reserve proof is 48 hours old or older; issuance is frozen.
    StaleMerkleRoot,
    /// A counter would overflow or underflow.
    MathOverflow,
    /// Minting would push the issued supply above the proven reserves.
    InsufficientReserves,
    /// A price of zero was offered on the bounded path.
    InvalidPrice,
    /// The bounded path was asked to move the price by more than 20% of
    /// its prior value.
    PriceChangeExceedsLimit,
    /// The caller lacks the capability the operation requires.
    Unauthorized,
    /// A submitted proof claims a reserve count that disagrees with the
    /// count recorded by the attestation root on file.
    ReserveCountMismatch,
    /// A purchase was attempted before any price was set.
    PriceNotSet,
    /// The redemption request is not in a status this transition accepts.
    InvalidRedemptionStatus,
    /// A purchase asked for more than the per-call cap of 1000 units.
    ExceedsTransactionCap,
}

} // verus!
