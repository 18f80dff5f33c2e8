//! The authentication gate: the first phase of every delegation. The
//! credential check itself (a signed, time-bound token judged against the
//! proxy configuration within a tolerance window) is an external
//! collaborator; its decision arrives here, and a failure is terminal with
//! 401 before any network action.

use vstd::prelude::*;
use crate::errors;
use crate::errors::ErrorResponse;

verus! {

/// Maps the credential gate decision: a failure becomes 401 with the
/// reported reason as the detail (built internally, never scrubbed), and
/// the pipeline must go no further.
pub fn on_auth(outcome: &Result<(), String>) -> (r: Result<(), ErrorResponse>)
    ensures
        r is Ok <==> outcome is Ok,
        outcome matches Err(m) ==> r is Err && errors::error_says(
            r->Err_0,
            401,
            "authentication_failed"@,
            m@,
        ),
{
    match outcome {
        Ok(_) => Ok(()),
        Err(m) => Err(errors::error_response(401, "authentication_failed", m.as_str())),
    }
}

} // verus!
