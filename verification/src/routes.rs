//! Where the server's own endpoints are, as a client of it addresses them.

use vstd::prelude::*;
use crate::text::joined;

verus! {

/// Route that starts a device authorization.
pub const DEVICE_CODE_ROUTE: &'static str = "/auth/github/device-code";

/// Route that waits for the user's decision.
pub const WAIT_FOR_AUTHORIZATION_ROUTE: &'static str = "/auth/github/wait-for-authorization";

/// Route that returns the user an access token belongs to.
pub const GITHUB_LOGIN_ROUTE: &'static str = "/auth/github-login";

/// The URL that starts a device authorization at the server with the given
/// base URL.
pub fn device_code_url(api_base_url: &str) -> (url: String)
    ensures
        url@ == api_base_url@ + "/auth/github/device-code"@,
{
    joined(api_base_url, "/auth/github/device-code")
}

/// The URL that waits for the user's decision at the server with the given
/// base URL.
pub fn wait_for_authorization_url(api_base_url: &str) -> (url: String)
    ensures
        url@ == api_base_url@ + "/auth/github/wait-for-authorization"@,
{
    joined(api_base_url, "/auth/github/wait-for-authorization")
}

/// The URL that returns the user an access token belongs to, at the server
/// with the given base URL.
pub fn github_login_url(api_base_url: &str) -> (url: String)
    ensures
        url@ == api_base_url@ + "/auth/github-login"@,
{
    joined(api_base_url, "/auth/github-login")
}

/// The value of the `Authorization` header that presents a bearer token.
pub fn bearer(token: &str) -> (value: String)
    ensures
        value@ == "Bearer "@ + token@,
{
    joined("Bearer ", token)
}

} // verus!
