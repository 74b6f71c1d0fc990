//! Status codes that a response can carry.

use vstd::prelude::*;

verus! {

/// Whether a response can carry `code` as its status: the three-digit codes,
/// from 100 to 999.
pub open spec fn is_status_code(code: u16) -> bool {
    100 <= code <= 999
}

/// `http::StatusCode::from_u16`: the codes from 100 to 999 are accepted, and
/// no others.
#[verifier::external_body]
pub(crate) fn accepted_status(code: u16) -> (accepted: bool)
    ensures
        accepted == is_status_code(code),
{
    http::StatusCode::from_u16(code).is_ok()
}

} // verus!
