//! What is answered when the body of a request cannot be read.

use vstd::prelude::*;
use crate::routes::STATUS_BAD_REQUEST;

verus! {

/// The refusal of a body that is no request: the status and the fields of
/// the answer. The answer has no payload.
#[derive(Debug, Clone, PartialEq, Eq)]
pub struct BodyRejection {
    pub status: u16,
    pub success: bool,
    pub error: String,
}

/// The one body that a refusal has.
pub open spec fn is_rejection(rejection: BodyRejection) -> bool {
    &&& rejection.status == STATUS_BAD_REQUEST
    &&& !rejection.success
    &&& rejection.error@ == "Invalid or missing field in JSON request body"@
}

/// Hands on the request that was read from a body, or refuses with status
/// 400 and one fixed message where none could be read, whatever was wrong
/// with the body.
pub fn extract_json_with_error_status<T>(decoded: Option<T>) -> (result: Result<T, BodyRejection>)
    ensures
        match decoded {
            Some(request) => result == Ok::<T, BodyRejection>(request),
            None => result is Err && is_rejection(result->Err_0),
        },
{
    match decoded {
        Some(request) => Ok(request),
        None => Err(
            BodyRejection {
                status: STATUS_BAD_REQUEST,
                success: false,
                error: "Invalid or missing field in JSON request body".to_owned(),
            },
        ),
    }
}

} // verus!
