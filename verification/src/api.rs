//! The wire shapes of the service's replies, and the decision that turns a
//! reply envelope into a result.

use vstd::prelude::*;

verus! {

/// An error reported by the service inside a reply envelope.
#[derive(Debug)]
pub struct KBError {
    pub code: i32,
    pub message: String,
}

/// The reply envelope of an API call: at most one of a result and an error.
pub struct APIResult<T> {
    pub result: Option<T>,
    pub error: Option<KBError>,
}

/// The reply of a status call: the logged-in user name.
#[derive(Debug)]
pub struct StatusRes {
    pub username: String,
}

/// Why a reply envelope carries no usable result.
#[derive(Debug)]
pub enum ApiResponseError {
    Rejected(KBError),
    MissingResult,
}

/// Decides a reply envelope: a reported error wins, then the result; an
/// envelope with neither is itself an error rather than a panic.
pub fn api_result_to_result<T>(r: APIResult<T>) -> (res: Result<T, ApiResponseError>)
    ensures
        (match r.error {
            Some(e) => res matches Err(ApiResponseError::Rejected(e2)) && e2 == e,
            None => (match r.result {
                Some(t) => res matches Ok(t2) && t2 == t,
                None => res matches Err(e2) && e2 is MissingResult,
            }),
        }),
{
    let APIResult { result, error } = r;
    match error {
        Some(e) => Err(ApiResponseError::Rejected(e)),
        None => match result {
            Some(t) => Ok(t),
            None => Err(ApiResponseError::MissingResult),
        },
    }
}

} // verus!
