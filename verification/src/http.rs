//! What an HTTP response means to the caller: which statuses count as
//! success, and which failure each of the others stands for.

use vstd::prelude::*;
use vstd::string::*;
use crate::auth::types::{AuthError, AuthFailure};
use crate::errors::{DomainError, Failure};
use crate::text::joined;

verus! {

/// Status of a request that lacks valid credentials.
pub const STATUS_UNAUTHORIZED: u16 = 401;

/// Status of a request that the server gave up waiting for.
pub const STATUS_REQUEST_TIMEOUT: u16 = 408;

/// Status of a request that failed inside the server.
pub const STATUS_INTERNAL_SERVER_ERROR: u16 = 500;

/// Whether a status is one of the successful ones, 200 to 299.
pub open spec fn status_is_success(status: u16) -> bool {
    200 <= status < 300
}

/// Whether a status is one of the successful ones.
pub fn is_success(status: u16) -> (r: bool)
    ensures
        r == status_is_success(status),
{
    200 <= status && status < 300
}

/// The failure that an unsuccessful status stands for; `status_line` is the
/// status as the transport prints it.
pub open spec fn status_failure(status_line: Seq<char>) -> Failure {
    Failure::ExternalService("HTTP request failed with status: "@ + status_line)
}

/// What the response to a form post comes to: its body where the status is
/// a success, a failure of the external service otherwise.
pub open spec fn form_response(status: u16, status_line: Seq<char>, body: Seq<char>) -> Result<
    Seq<char>,
    Failure,
> {
    if status_is_success(status) {
        Ok(body)
    } else {
        Err(status_failure(status_line))
    }
}

/// What the response to an authenticated request comes to: a rejected
/// token where the status is 401, else as for a form post.
pub open spec fn authorized_response(
    status: u16,
    status_line: Seq<char>,
    body: Seq<char>,
) -> Result<Seq<char>, Failure> {
    if status == STATUS_UNAUTHORIZED {
        Err(Failure::Unauthorized("Invalid access token"@))
    } else {
        form_response(status, status_line, body)
    }
}

/// Whether a result is the given body or failure.
pub open spec fn is_response(
    result: Result<String, DomainError>,
    expected: Result<Seq<char>, Failure>,
) -> bool {
    match result {
        Ok(body) => expected == Ok::<Seq<char>, Failure>(body@),
        Err(error) => expected == Err::<Seq<char>, Failure>(error@),
    }
}

/// Decides what the response to a form post comes to.
pub fn check_form_response(status: u16, status_line: &str, body: String) -> (result: Result<
    String,
    DomainError,
>)
    ensures
        is_response(result, form_response(status, status_line@, body@)),
{
    if is_success(status) {
        Ok(body)
    } else {
        Err(DomainError::ExternalService(joined("HTTP request failed with status: ", status_line)))
    }
}

/// Decides what the response to an authenticated request comes to.
pub fn check_authorized_response(status: u16, status_line: &str, body: String) -> (result: Result<
    String,
    DomainError,
>)
    ensures
        is_response(result, authorized_response(status, status_line@, body@)),
{
    if status == STATUS_UNAUTHORIZED {
        Err(DomainError::Unauthorized("Invalid access token".to_owned()))
    } else {
        check_form_response(status, status_line, body)
    }
}

/// The failure reported where a request could not be sent; `cause` is the
/// transport's account of it.
pub fn send_failure(cause: &str) -> (error: DomainError)
    ensures
        error@ == Failure::ExternalService("HTTP request failed: "@ + cause@),
{
    DomainError::ExternalService(joined("HTTP request failed: ", cause))
}

/// The failure reported where a response body could not be received;
/// `cause` is the transport's account of it.
pub fn read_failure(cause: &str) -> (error: DomainError)
    ensures
        error@ == Failure::ExternalService("Failed to read response: "@ + cause@),
{
    DomainError::ExternalService(joined("Failed to read response: ", cause))
}

/// The status a server answers with when a login fails.
pub open spec fn failure_status(failure: AuthFailure) -> u16 {
    match failure {
        AuthFailure::Timeout => STATUS_REQUEST_TIMEOUT,
        AuthFailure::Denied => STATUS_UNAUTHORIZED,
        AuthFailure::Configuration { .. } => STATUS_INTERNAL_SERVER_ERROR,
        AuthFailure::Internal { .. } => STATUS_INTERNAL_SERVER_ERROR,
    }
}

/// Picks the status a server answers with when a login fails.
pub fn status_for(error: &AuthError) -> (status: u16)
    ensures
        status == failure_status(error@),
{
    match error {
        AuthError::UserAuthenticationTimeout => STATUS_REQUEST_TIMEOUT,
        AuthError::UserDeniedAuthentication => STATUS_UNAUTHORIZED,
        AuthError::ServerConfigurationError { .. } => STATUS_INTERNAL_SERVER_ERROR,
        AuthError::InternalServerError { .. } => STATUS_INTERNAL_SERVER_ERROR,
    }
}

} // verus!
