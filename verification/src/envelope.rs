//! Decoding of the uniform upstream envelope, and the failure taxonomy every
//! operation shares: a transport fault, a semantic failure reported by
//! upstream, or a protocol violation (success without a payload).

use vstd::prelude::*;

use crate::models::gugugagaApiResponse;

verus! {

/// How an upstream call fails.
#[derive(Debug, Clone, PartialEq, Eq)]
pub enum ApiError {
    /// Network failure, or a response that did not decode as the envelope.
    Transport(String),
    /// The envelope decoded but reported a non-zero code; upstream's code
    /// and message are preserved untranslated.
    Remote { code: i32, message: String },
    /// The envelope reported success but carried no payload.
    MissingData,
}

/// What unwrapping an envelope yields: the payload on a clean success, the
/// preserved upstream failure otherwise.
pub open spec fn spec_unwrap<T>(resp: gugugagaApiResponse<T>) -> Result<T, ApiError> {
    if resp.code != 0 {
        Err(ApiError::Remote { code: resp.code, message: resp.message })
    } else {
        match resp.data {
            Some(d) => Ok(d),
            None => Err(ApiError::MissingData),
        }
    }
}

/// What checking an envelope for bare success yields: the payload is
/// deliberately ignored, so a success without one is still a success.
pub open spec fn spec_status<T>(resp: gugugagaApiResponse<T>) -> Result<(), ApiError> {
    if resp.code != 0 {
        Err(ApiError::Remote { code: resp.code, message: resp.message })
    } else {
        Ok(())
    }
}

/// Unwraps an envelope: `code == 0` with a payload yields the payload;
/// any other code preserves upstream's code and message; success without a
/// payload is a protocol violation.
pub fn unwrap_envelope<T>(resp: gugugagaApiResponse<T>) -> (r: Result<T, ApiError>)
    ensures
        r == spec_unwrap(resp),
{
    if resp.code != 0 {
        Err(ApiError::Remote { code: resp.code, message: resp.message })
    } else {
        match resp.data {
            Some(d) => Ok(d),
            None => Err(ApiError::MissingData),
        }
    }
}

/// Checks an envelope for bare success, ignoring any payload: the calls that
/// return no data do not require one to be present.
pub fn envelope_status<T>(resp: gugugagaApiResponse<T>) -> (r: Result<(), ApiError>)
    ensures
        r == spec_status(resp),
{
    if resp.code != 0 {
        Err(ApiError::Remote { code: resp.code, message: resp.message })
    } else {
        Ok(())
    }
}

} // verus!
