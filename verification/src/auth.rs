//! The authorization guard: capability predicates evaluated per call and
//! never cached. Every mutating operation checks its required capability
//! first and refuses with `Unauthorized` before touching any state.

use vstd::prelude::*;

use crate::bytes32::Bytes32;
use crate::state::{ProtocolState, RedemptionRequest};

verus! {

/// Whether the caller is the administrator.
pub open spec fn is_authority_spec(s: &ProtocolState, caller: Bytes32) -> bool {
    caller == s.authority
}

/// Whether the caller may perform routine operations: the operator, or the
/// authority, which always retains operator powers.
pub open spec fn is_operator_spec(s: &ProtocolState, caller: Bytes32) -> bool {
    caller == s.operator || caller == s.authority
}

/// Whether the caller created the request.
pub open spec fn is_requester_spec(r: &RedemptionRequest, caller: Bytes32) -> bool {
    caller == r.user
}

/// Whether the caller is the fulfiller recorded on the request.
pub open spec fn is_fulfiller_spec(r: &RedemptionRequest, caller: Bytes32) -> bool {
    caller == r.fulfiller
}

/// Checks the administrator capability.
#[verifier::when_used_as_spec(is_authority_spec)]
pub fn is_authority(s: &ProtocolState, caller: Bytes32) -> (r: bool)
    ensures
        r == is_authority_spec(s, caller),
{
    caller == s.authority
}

/// Checks the operator capability.
#[verifier::when_used_as_spec(is_operator_spec)]
pub fn is_operator(s: &ProtocolState, caller: Bytes32) -> (r: bool)
    ensures
        r == is_operator_spec(s, caller),
{
    caller == s.operator || caller == s.authority
}

/// Checks the requester capability.
#[verifier::when_used_as_spec(is_requester_spec)]
pub fn is_requester(r: &RedemptionRequest, caller: Bytes32) -> (b: bool)
    ensures
        b == is_requester_spec(r, caller),
{
    caller == r.user
}

/// Checks the fulfiller capability.
#[verifier::when_used_as_spec(is_fulfiller_spec)]
pub fn is_fulfiller(r: &RedemptionRequest, caller: Bytes32) -> (b: bool)
    ensures
        b == is_fulfiller_spec(r, caller),
{
    caller == r.fulfiller
}

} // verus!
