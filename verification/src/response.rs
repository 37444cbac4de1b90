//! Classification of remote API responses. The remote signals rate limiting
//! by a distinct status code rather than an error envelope, success and
//! failure share one body shape, and a few write endpoints answer success
//! with an empty body; this module turns those conventions into a typed
//! result.

use vstd::prelude::*;

use crate::error::ClientError;

verus! {

/// The status code the remote API signals rate limiting with.
pub const TOO_MANY_REQUESTS_STATUS: u16 = 429;

/// A decoded response body: the expected payload, or the structured error
/// envelope the remote API wraps failures in.
#[derive(Debug)]
pub enum SpotifyResponse<T> {
    Success(T),
    Error(SpotifyErrorWrapper),
}

/// The envelope around a structured error body.
#[derive(Debug)]
pub struct SpotifyErrorWrapper {
    pub error: SpotifyErrorResponse,
}

/// The structured error body: the remote status code and its message.
#[derive(Debug)]
pub struct SpotifyErrorResponse {
    pub status: u16,
    pub message: String,
}

/// What a playlist write answers with: the identifier of the playlist
/// revision the write produced.
#[derive(Debug)]
pub struct SnapshotResponse {
    pub snapshot_id: String,
}

impl SpotifyErrorWrapper {
    /// The client failure a structured error body amounts to.
    pub fn into_error(self) -> (r: ClientError)
        ensures
            r == (ClientError::ApiError { status: self.error.status, message: self.error.message }),
    {
        ClientError::ApiError { status: self.error.status, message: self.error.message }
    }
}

/// Classify one response: the rate-limit status code wins over everything, an
/// absent or empty body is its own failure, and otherwise the decoded body
/// decides between payload and structured error.
pub fn map_response<T>(status: u16, body: Option<SpotifyResponse<T>>) -> (r: Result<T, ClientError>)
    ensures
        status == TOO_MANY_REQUESTS_STATUS ==> (r matches Err(e) && e is TooManyRequests),
        status != TOO_MANY_REQUESTS_STATUS ==> match body {
            None => r matches Err(e) && e is EmptyResponse,
            Some(SpotifyResponse::Success(t)) => r matches Ok(v) && v == t,
            Some(SpotifyResponse::Error(w)) => r matches Err(e) && e == (ClientError::ApiError {
                status: w.error.status,
                message: w.error.message,
            }),
        },
{
    if status == TOO_MANY_REQUESTS_STATUS {
        return Err(ClientError::TooManyRequests);
    }
    match body {
        None => Err(ClientError::EmptyResponse),
        Some(SpotifyResponse::Success(t)) => Ok(t),
        Some(SpotifyResponse::Error(w)) => Err(w.into_error()),
    }
}

/// Writes without a response payload answer success with an empty body, so
/// for them the empty-body failure is success; every other outcome stands.
pub fn accept_empty(r: Result<(), ClientError>) -> (out: Result<(), ClientError>)
    ensures
        match r {
            Ok(_) => out is Ok,
            Err(ClientError::EmptyResponse) => out is Ok,
            Err(e) => out matches Err(e2) && e2 == e,
        },
{
    match r {
        Ok(_) => Ok(()),
        Err(ClientError::EmptyResponse) => Ok(()),
        Err(e) => Err(e),
    }
}

} // verus!
