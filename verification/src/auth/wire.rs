//! What goes over the wire to and from the provider: the form bodies of the
//! two requests, and the JSON bodies of the responses.

use vstd::prelude::*;
use vstd::string::*;
use crate::auth::types::{
    AuthError, AuthFailure, AuthenticatedUser, DeviceCodeResponse, DeviceCodeView, GitHubUser,
    GitHubUserView, IdentityView,
};
use crate::errors::{DomainError, Failure};
use crate::json::{integer_field, integer_member, parse_document, string_member, text_field};
use crate::text::{decimal, decimal_text, optional_text};

verus! {

/// Where a device code is requested.
pub const GITHUB_DEVICE_CODE_REQUEST_URL: &'static str = "https://github.com/login/device/code";

/// Where authorization is polled for.
pub const GITHUB_CHECK_USER_AUTHORISED_URL: &'static str = "https://github.com/login/oauth/access_token";

/// Where the authenticated user is fetched.
pub const GITHUB_USER_URL: &'static str = "https://api.github.com/user";

/// The form fields of a device-code request.
#[derive(Debug, Clone)]
pub struct DeviceCodeRequestParams {
    /// Client id of the OAuth app.
    pub client_id: String,
    /// Space-delimited list of scopes.
    pub scope: String,
}

/// The form fields of a poll for authorization.
#[derive(Debug, Clone)]
pub struct CheckUserAuthorisedRequestParams {
    /// Client id of the OAuth app.
    pub client_id: String,
    /// Device code from the device-code response.
    pub device_code: String,
    /// The grant type of the device flow.
    pub grant_type: String,
}

/// The `application/x-www-form-urlencoded` text of a list of name and value
/// pairs, as `serde_urlencoded` writes it; `None` where it refuses the list.
pub uninterp spec fn form_urlencoded(pairs: Seq<(Seq<char>, Seq<char>)>) -> Option<Seq<char>>;

/// The names and values of a list of pairs, as characters.
pub open spec fn pairs_text(pairs: Seq<(String, String)>) -> Seq<(Seq<char>, Seq<char>)> {
    Seq::new(pairs.len(), |i: int| (pairs[i].0@, pairs[i].1@))
}

/// Calls `serde_urlencoded::to_string` on the pairs. Trusted: the text
/// returned is the one `form_urlencoded` names for these pairs, and the call
/// fails exactly where `form_urlencoded` is `None`.
#[verifier::external_body]
fn urlencode_pairs(pairs: &Vec<(String, String)>) -> (text: Option<String>)
    ensures
        optional_text(text) == form_urlencoded(pairs_text(pairs@)),
{
    serde_urlencoded::to_string(pairs).ok()
}

/// The failure reported where a form body cannot be written.
pub open spec fn form_failure() -> AuthFailure {
    AuthFailure::Internal { debug_info: "Failed to serialize request params"@ }
}

/// The failure reported where no client id is configured.
pub open spec fn missing_client_id() -> AuthFailure {
    AuthFailure::Configuration { debug_info: "GitHub client ID not configured"@ }
}

/// The form body for a list of pairs, or the failure to write it.
pub open spec fn form_body(pairs: Seq<(Seq<char>, Seq<char>)>) -> Result<Seq<char>, AuthFailure> {
    match form_urlencoded(pairs) {
        Some(text) => Ok(text),
        None => Err(form_failure()),
    }
}

/// Whether a result is the given form body or failure.
pub open spec fn is_form_body(
    result: Result<String, AuthError>,
    expected: Result<Seq<char>, AuthFailure>,
) -> bool {
    match result {
        Ok(text) => expected == Ok::<Seq<char>, AuthFailure>(text@),
        Err(error) => expected == Err::<Seq<char>, AuthFailure>(error@),
    }
}

/// Turns the text that the encoder returned, if any, into a form body.
pub fn form_body_from(encoded: Option<String>) -> (body: Result<String, AuthError>)
    ensures
        match encoded {
            Some(text) => body == Ok::<String, AuthError>(text),
            None => body is Err && body->Err_0@ == form_failure(),
        },
{
    match encoded {
        Some(text) => Ok(text),
        None => Err(
            AuthError::InternalServerError {
                debug_info: "Failed to serialize request params".to_owned(),
            },
        ),
    }
}

/// Writes a list of name and value pairs as a form body.
pub fn encode_form(pairs: &Vec<(String, String)>) -> (body: Result<String, AuthError>)
    ensures
        is_form_body(body, form_body(pairs_text(pairs@))),
{
    form_body_from(urlencode_pairs(pairs))
}

impl DeviceCodeRequestParams {
    /// The pairs of the form, in the order they are sent.
    pub open spec fn pairs(&self) -> Seq<(Seq<char>, Seq<char>)> {
        seq![("client_id"@, self.client_id@), ("scope"@, self.scope@)]
    }

    /// The request for the configured client, asking for the `user` scope.
    /// Without a client id there is no request.
    pub fn for_client(client_id: Option<String>) -> (params: Result<
        DeviceCodeRequestParams,
        AuthError,
    >)
        ensures
            match client_id {
                Some(id) => params is Ok && params->Ok_0.client_id == id
                    && params->Ok_0.scope@ == "user"@,
                None => params is Err && params->Err_0@ == missing_client_id(),
            },
    {
        match client_id {
            Some(id) => Ok(DeviceCodeRequestParams { client_id: id, scope: "user".to_owned() }),
            None => Err(
                AuthError::ServerConfigurationError {
                    debug_info: "GitHub client ID not configured".to_owned(),
                },
            ),
        }
    }

    /// The pairs of the form, in the order they are sent.
    pub fn form_pairs(&self) -> (pairs: Vec<(String, String)>)
        ensures
            pairs_text(pairs@) == self.pairs(),
    {
        let mut pairs: Vec<(String, String)> = Vec::new();
        pairs.push(("client_id".to_owned(), self.client_id.clone()));
        pairs.push(("scope".to_owned(), self.scope.clone()));
        assert(pairs_text(pairs@) =~= self.pairs());
        pairs
    }

    /// The form body of the request.
    pub fn to_form(&self) -> (body: Result<String, AuthError>)
        ensures
            is_form_body(body, form_body(self.pairs())),
    {
        encode_form(&self.form_pairs())
    }
}

impl CheckUserAuthorisedRequestParams {
    /// The pairs of the form, in the order they are sent.
    pub open spec fn pairs(&self) -> Seq<(Seq<char>, Seq<char>)> {
        seq![
            ("client_id"@, self.client_id@),
            ("device_code"@, self.device_code@),
            ("grant_type"@, self.grant_type@),
        ]
    }

    /// The poll for the given device code on behalf of the configured
    /// client. Without a client id there is no request.
    pub fn for_device(client_id: Option<String>, device_code: String) -> (params: Result<
        CheckUserAuthorisedRequestParams,
        AuthError,
    >)
        ensures
            match client_id {
                Some(id) => params is Ok && params->Ok_0.client_id == id
                    && params->Ok_0.device_code == device_code && params->Ok_0.grant_type@
                    == "urn:ietf:params:oauth:grant-type:device_code"@,
                None => params is Err && params->Err_0@ == missing_client_id(),
            },
    {
        match client_id {
            Some(id) => Ok(
                CheckUserAuthorisedRequestParams {
                    client_id: id,
                    device_code,
                    grant_type: "urn:ietf:params:oauth:grant-type:device_code".to_owned(),
                },
            ),
            None => Err(
                AuthError::ServerConfigurationError {
                    debug_info: "GitHub client ID not configured".to_owned(),
                },
            ),
        }
    }

    /// The pairs of the form, in the order they are sent.
    pub fn form_pairs(&self) -> (pairs: Vec<(String, String)>)
        ensures
            pairs_text(pairs@) == self.pairs(),
    {
        let mut pairs: Vec<(String, String)> = Vec::new();
        pairs.push(("client_id".to_owned(), self.client_id.clone()));
        pairs.push(("device_code".to_owned(), self.device_code.clone()));
        pairs.push(("grant_type".to_owned(), self.grant_type.clone()));
        assert(pairs_text(pairs@) =~= self.pairs());
        pairs
    }

    /// The form body of the request.
    pub fn to_form(&self) -> (body: Result<String, AuthError>)
        ensures
            is_form_body(body, form_body(self.pairs())),
    {
        encode_form(&self.form_pairs())
    }
}

/// The device-code response that five members amount to: all five are
/// needed, and the two numbers must fit in 32 bits.
pub open spec fn device_code_of(
    device_code: Option<Seq<char>>,
    user_code: Option<Seq<char>>,
    verification_uri: Option<Seq<char>>,
    expires_in: Option<u64>,
    interval: Option<u64>,
) -> Option<DeviceCodeView> {
    if device_code is Some && user_code is Some && verification_uri is Some && expires_in is Some
        && interval is Some && expires_in->0 <= u32::MAX && interval->0 <= u32::MAX {
        Some(
            DeviceCodeView {
                device_code: device_code->0,
                user_code: user_code->0,
                verification_uri: verification_uri->0,
                expires_in: expires_in->0 as u32,
                interval: interval->0 as u32,
            },
        )
    } else {
        None
    }
}

/// The device-code response that a body holds, if it holds one.
pub open spec fn device_code_in(body: Seq<char>) -> Option<DeviceCodeView> {
    device_code_of(
        text_field(body, "device_code"@),
        text_field(body, "user_code"@),
        text_field(body, "verification_uri"@),
        integer_field(body, "expires_in"@),
        integer_field(body, "interval"@),
    )
}

/// The failure reported for a response body that cannot be read.
pub open spec fn unreadable_response(error: DomainError) -> bool {
    error@ == Failure::ExternalService("Failed to parse response"@)
}

/// Whether a result is the given value, or the failure to read a body
/// where there is none.
pub open spec fn is_reading<T: View>(result: Result<T, DomainError>, expected: Option<T::V>) -> bool {
    match result {
        Ok(value) => expected == Some(value@),
        Err(error) => expected is None && unreadable_response(error),
    }
}

fn unreadable<T>() -> (r: Result<T, DomainError>)
    ensures
        r is Err,
        unreadable_response(r->Err_0),
{
    Err(DomainError::ExternalService("Failed to parse response".to_owned()))
}

/// Builds the device-code response from the five members a body may hold.
pub fn device_code_from_fields(
    device_code: Option<String>,
    user_code: Option<String>,
    verification_uri: Option<String>,
    expires_in: Option<u64>,
    interval: Option<u64>,
) -> (response: Result<DeviceCodeResponse, DomainError>)
    ensures
        is_reading(
            response,
            device_code_of(
                optional_text(device_code),
                optional_text(user_code),
                optional_text(verification_uri),
                expires_in,
                interval,
            ),
        ),
{
    match (device_code, user_code, verification_uri, expires_in, interval) {
        (Some(device_code), Some(user_code), Some(verification_uri), Some(expires), Some(spacing)) => {
            if expires <= 0xffff_ffff && spacing <= 0xffff_ffff {
                Ok(
                    DeviceCodeResponse {
                        device_code,
                        user_code,
                        verification_uri,
                        expires_in: expires as u32,
                        interval: spacing as u32,
                    },
                )
            } else {
                unreadable()
            }
        },
        _ => unreadable(),
    }
}

/// Reads the provider's answer to a device-code request.
pub fn read_device_code_response(body: &str) -> (response: Result<DeviceCodeResponse, DomainError>)
    ensures
        is_reading(response, device_code_in(body@)),
{
    match parse_document(body) {
        None => unreadable(),
        Some(doc) => device_code_from_fields(
            string_member(&doc, "device_code"),
            string_member(&doc, "user_code"),
            string_member(&doc, "verification_uri"),
            integer_member(&doc, "expires_in"),
            integer_member(&doc, "interval"),
        ),
    }
}

/// The user that four members amount to: `id` and `login` are needed,
/// `email` and `name` are taken where they are strings.
pub open spec fn user_of(
    id: Option<u64>,
    login: Option<Seq<char>>,
    email: Option<Seq<char>>,
    name: Option<Seq<char>>,
) -> Option<GitHubUserView> {
    if id is Some && login is Some {
        Some(GitHubUserView { id: id->0, login: login->0, email, name })
    } else {
        None
    }
}

/// The user that a body holds, if it holds one.
pub open spec fn user_in(body: Seq<char>) -> Option<GitHubUserView> {
    user_of(
        integer_field(body, "id"@),
        text_field(body, "login"@),
        text_field(body, "email"@),
        text_field(body, "name"@),
    )
}

/// Builds the user from the four members a body may hold.
pub fn user_from_fields(
    id: Option<u64>,
    login: Option<String>,
    email: Option<String>,
    name: Option<String>,
) -> (user: Result<GitHubUser, DomainError>)
    ensures
        is_reading(user, user_of(id, optional_text(login), optional_text(email), optional_text(name))),
{
    match (id, login) {
        (Some(id), Some(login)) => Ok(GitHubUser { id, login, email, name }),
        _ => unreadable(),
    }
}

/// Reads the provider's description of the authenticated user.
pub fn read_github_user(body: &str) -> (user: Result<GitHubUser, DomainError>)
    ensures
        is_reading(user, user_in(body@)),
{
    match parse_document(body) {
        None => unreadable(),
        Some(doc) => user_from_fields(
            integer_member(&doc, "id"),
            string_member(&doc, "login"),
            string_member(&doc, "email"),
            string_member(&doc, "name"),
        ),
    }
}

/// A GitHub user as a provider-independent identity: the numeric id in
/// decimal, the login as user name.
pub open spec fn identity_of(user: GitHubUserView) -> IdentityView {
    IdentityView {
        provider_id: decimal(user.id as nat),
        username: user.login,
        email: user.email,
        display_name: user.name,
    }
}

impl GitHubUser {
    /// Describes the user in provider-independent terms.
    pub fn into_authenticated(self) -> (identity: AuthenticatedUser)
        ensures
            identity@ == identity_of(self@),
    {
        AuthenticatedUser {
            provider_id: decimal_text(self.id),
            username: self.login,
            email: self.email,
            display_name: self.name,
        }
    }
}

} // verus!
