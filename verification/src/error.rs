//! Error taxonomy of the engine.
//!
//! `ClientError` describes failures of single remote calls; `SyncError` is the
//! engine-level taxonomy: invalid transfers, credential problems, remote
//! rejections with their status preserved, rate limiting, and local storage
//! failures.

use vstd::prelude::*;

verus! {

/// Failure of one remote API call.
#[derive(Debug)]
pub enum ClientError {
    /// An identifier could not be parsed from user input.
    InvalidId(String),
    /// The remote API answered with a structured error envelope.
    ApiError { status: u16, message: String },
    /// No access token is available for the request.
    MissingAccessToken,
    /// The stored credential has no refresh token, so it cannot be renewed.
    MissingRefreshToken,
    /// No credential is stored at all.
    MissingToken,
    /// The remote API signalled rate limiting with its distinct status code.
    TooManyRequests,
    /// The response body was empty where a payload was expected.
    EmptyResponse,
    /// The request failed below the API level; the text is the transport's
    /// own description.
    RequestError(String),
}

/// Engine-level failure of one watcher run.
#[derive(Debug)]
pub enum SyncError {
    /// The requested transfer violates a structural guard, such as equal
    /// source and target endpoints.
    InvalidTransfer(String),
    /// The user's credential is missing, invalid or cannot be refreshed;
    /// terminal for this user until they authenticate again.
    CredentialError(String),
    /// The remote API rejected a request; the remote status code is kept so
    /// callers can propagate it faithfully. A status of zero marks failures
    /// that carry no remote status code.
    RemoteApiError { status: u16, message: String },
    /// The remote API asked us to slow down; transient, not a signal about
    /// the watcher's health.
    RateLimited,
    /// Local persistence failed.
    StorageError(String),
}

/// The decimal numeral of `n`, most significant digit first.
pub open spec fn dec_str(n: int) -> Seq<char>
    decreases n,
{
    if n < 10 {
        seq![spec_digit(n)]
    } else {
        dec_str(n / 10).push(spec_digit(n % 10))
    }
}

/// The character of one decimal digit.
pub open spec fn spec_digit(d: int) -> char {
    if d == 0 {
        '0'
    } else if d == 1 {
        '1'
    } else if d == 2 {
        '2'
    } else if d == 3 {
        '3'
    } else if d == 4 {
        '4'
    } else if d == 5 {
        '5'
    } else if d == 6 {
        '6'
    } else if d == 7 {
        '7'
    } else if d == 8 {
        '8'
    } else {
        '9'
    }
}

/// One decimal digit as a string.
fn digit_string(d: u16) -> (r: String)
    requires
        d < 10,
    ensures
        r@ =~= seq![spec_digit(d as int)],
{
    proof {
        reveal_strlit("0");
        reveal_strlit("1");
        reveal_strlit("2");
        reveal_strlit("3");
        reveal_strlit("4");
        reveal_strlit("5");
        reveal_strlit("6");
        reveal_strlit("7");
        reveal_strlit("8");
        reveal_strlit("9");
    }
    match d {
        0 => String::from_str("0"),
        1 => String::from_str("1"),
        2 => String::from_str("2"),
        3 => String::from_str("3"),
        4 => String::from_str("4"),
        5 => String::from_str("5"),
        6 => String::from_str("6"),
        7 => String::from_str("7"),
        8 => String::from_str("8"),
        _ => String::from_str("9"),
    }
}

/// Render a status code as its decimal numeral.
pub fn u16_to_string(n: u16) -> (r: String)
    ensures
        r@ == dec_str(n as int),
    decreases n,
{
    let tail = digit_string(n % 10);
    if n < 10 {
        proof {
            assert(tail@ =~= dec_str(n as int));
        }
        tail
    } else {
        let head = u16_to_string(n / 10);
        let r = head.concat(tail.as_str());
        proof {
            assert(r@ =~= dec_str(n as int));
        }
        r
    }
}

impl SyncError {
    /// The error's textual form, as the outcome log stores it.
    pub fn message(&self) -> (r: String)
        ensures
            match self {
                SyncError::InvalidTransfer(s) => r@ == "invalid transfer: "@ + s@,
                SyncError::CredentialError(s) => r@ == "credential error: "@ + s@,
                SyncError::RemoteApiError { status, message } => r@ == "spotify "@ + dec_str(
                    *status as int,
                ) + " error: "@ + message@,
                SyncError::RateLimited => r@ == "too many requests"@,
                SyncError::StorageError(s) => r@ == "storage error: "@ + s@,
            },
    {
        match self {
            SyncError::InvalidTransfer(s) => String::from_str("invalid transfer: ").concat(
                s.as_str(),
            ),
            SyncError::CredentialError(s) => String::from_str("credential error: ").concat(
                s.as_str(),
            ),
            SyncError::RemoteApiError { status, message } => String::from_str("spotify ").concat(
                u16_to_string(*status).as_str(),
            ).concat(" error: ").concat(message.as_str()),
            SyncError::RateLimited => String::from_str("too many requests"),
            SyncError::StorageError(s) => String::from_str("storage error: ").concat(s.as_str()),
        }
    }

    /// What the web layer shows a user for a failed on-demand sync: the
    /// remote API's own message verbatim, with its status, where the failure
    /// carries one; the rate-limit status with its fixed text; and a generic
    /// failure indicator, without internal detail, for everything else.
    pub fn user_facing_response(&self) -> (r: (u16, String))
        ensures
            match self {
                SyncError::RemoteApiError { status, message } => if 100 <= *status <= 999 {
                    r.0 == *status && r.1@ == message@
                } else {
                    r.0 == 500u16 && r.1@ == "internal server error"@
                },
                SyncError::RateLimited => r.0 == 429u16 && r.1@ == "too many requests"@,
                _ => r.0 == 500u16 && r.1@ == "internal server error"@,
            },
    {
        match self {
            SyncError::RemoteApiError { status, message } => {
                if 100 <= *status && *status <= 999 {
                    (*status, message.clone())
                } else {
                    (500, String::from_str("internal server error"))
                }
            },
            SyncError::RateLimited => (429, String::from_str("too many requests")),
            _ => (500, String::from_str("internal server error")),
        }
    }

    /// Translate a remote-call failure into the engine taxonomy.
    pub fn from_client(err: ClientError) -> (r: SyncError)
        ensures
            match err {
                ClientError::ApiError { status, message } => r == (SyncError::RemoteApiError {
                    status,
                    message,
                }),
                ClientError::TooManyRequests => r == SyncError::RateLimited,
                ClientError::MissingRefreshToken => r matches SyncError::CredentialError(m)
                    && m@ == "missing refresh token"@,
                ClientError::MissingAccessToken => r matches SyncError::CredentialError(m)
                    && m@ == "missing access token"@,
                ClientError::MissingToken => r matches SyncError::CredentialError(m)
                    && m@ == "missing token"@,
                ClientError::InvalidId(s) => r matches SyncError::InvalidTransfer(m)
                    && m@ == "invalid ID: "@ + s@,
                ClientError::EmptyResponse => r matches SyncError::RemoteApiError {
                    status,
                    message,
                } && status == 0 && message@ == "empty response"@,
                ClientError::RequestError(s) => r == (SyncError::RemoteApiError {
                    status: 0,
                    message: s,
                }),
            },
    {
        match err {
            ClientError::ApiError { status, message } => SyncError::RemoteApiError {
                status,
                message,
            },
            ClientError::TooManyRequests => SyncError::RateLimited,
            ClientError::MissingRefreshToken => SyncError::CredentialError(
                String::from_str("missing refresh token"),
            ),
            ClientError::MissingAccessToken => SyncError::CredentialError(
                String::from_str("missing access token"),
            ),
            ClientError::MissingToken => SyncError::CredentialError(
                String::from_str("missing token"),
            ),
            ClientError::InvalidId(s) => SyncError::InvalidTransfer(
                String::from_str("invalid ID: ").concat(s.as_str()),
            ),
            ClientError::EmptyResponse => SyncError::RemoteApiError {
                status: 0,
                message: String::from_str("empty response"),
            },
            ClientError::RequestError(s) => SyncError::RemoteApiError { status: 0, message: s },
        }
    }
}

} // verus!
