use vstd::prelude::*;

use crate::error::{Error, ErrorCode};

verus! {

/// The error for a request body that could not be processed.
pub fn unprocessable_entity() -> (e: Error)
    ensures
        e.code == ErrorCode::InvalidData,
{
    Error::custom(ErrorCode::InvalidData, String::from_str("the given object couldn't be processed"))
}

/// The error for a path that matches no route.
pub fn not_found() -> (e: Error)
    ensures
        e.code == ErrorCode::ResourceNotFound,
{
    Error::custom(
        ErrorCode::ResourceNotFound,
        String::from_str("the given route did not match any existing routes"),
    )
}

/// The error for a failure inside request handling.
pub fn internal_server_error() -> (e: Error)
    ensures
        e.code == ErrorCode::Unknown,
{
    Error::custom(
        ErrorCode::Unknown,
        String::from_str("an internal server error occured while processing the request"),
    )
}

} // verus!
