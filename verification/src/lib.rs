//! A reserve-backed token ledger.
//!
//! A singleton [`state::ProtocolState`] record gates token issuance to an
//! attested reserve count, tracks a burn-to-redeem lifecycle coordinated
//! between independent actors, accrues loyalty points, and can be migrated
//! in place between versioned binary layouts without a structural decode.
//!
//! Every operation is a pure state transition: the surrounding platform is
//! expected to supply the clock, perform the external token and currency
//! movements an operation returns, and commit or discard the whole
//! transition atomically.

pub mod auth;
pub mod bytes32;
pub mod codec;
pub mod errors;
pub mod events;
pub mod laws;
pub mod layout;
pub mod ledger;
pub mod market;
pub mod state;
