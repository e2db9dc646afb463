//! The two plain answers of the HTTP interface.

use vstd::prelude::*;
use crate::text::{chars_of, contains, spec_contains};

verus! {

/// The answer to a request that went well.
#[derive(Debug, Clone)]
pub struct SuccessResponse {
    pub message: String,
}

/// The answer to a request that failed.
#[derive(Debug, Clone)]
pub struct ErrorResponse {
    pub error: String,
}

/// An answer that reports success with the given message.
pub fn success(message: String) -> (response: SuccessResponse)
    ensures
        response.message == message,
{
    SuccessResponse { message }
}

/// An answer that reports the given error.
pub fn error(reason: String) -> (response: ErrorResponse)
    ensures
        response.error == reason,
{
    ErrorResponse { error: reason }
}

/// The status of an answer that refuses access.
pub const STATUS_FORBIDDEN: u16 = 403;

/// The status of an answer that reports a failure of the server.
pub const STATUS_INTERNAL_SERVER_ERROR: u16 = 500;

/// The status with which a failed location update is answered: forbidden
/// where the failure says that the user is not a member of the room, a
/// failure of the server otherwise.
pub open spec fn spec_location_error_status(message: Seq<char>) -> u16 {
    if spec_contains(message, "not a member"@) {
        STATUS_FORBIDDEN
    } else {
        STATUS_INTERNAL_SERVER_ERROR
    }
}

/// The status with which a failed location update is answered.
pub fn location_error_status(message: &str) -> (status: u16)
    ensures
        status == spec_location_error_status(message@),
{
    if contains(&chars_of(message), &chars_of("not a member")) {
        STATUS_FORBIDDEN
    } else {
        STATUS_INTERNAL_SERVER_ERROR
    }
}

} // verus!
