//! The values exchanged during a device-flow login, and the failures a login
//! can end in.

use vstd::prelude::*;
use crate::text::{joined, optional_text};

verus! {

/// The form fields sent to ask the provider for a device code.
#[derive(Debug, Clone)]
pub struct DeviceCodeRequest {
    pub client_id: String,
    pub scope: String,
}

/// The provider's answer to a device-code request: the code the client polls
/// with, the code the user types, where to type it, and the advertised
/// lifetime and minimum poll spacing in seconds.
#[derive(Debug, Clone)]
pub struct DeviceCodeResponse {
    pub device_code: String,
    pub user_code: String,
    pub verification_uri: String,
    pub expires_in: u32,
    pub interval: u32,
}

/// Mathematical content of a [`DeviceCodeResponse`].
pub ghost struct DeviceCodeView {
    pub device_code: Seq<char>,
    pub user_code: Seq<char>,
    pub verification_uri: Seq<char>,
    pub expires_in: u32,
    pub interval: u32,
}

impl View for DeviceCodeResponse {
    type V = DeviceCodeView;

    open spec fn view(&self) -> DeviceCodeView {
        DeviceCodeView {
            device_code: self.device_code@,
            user_code: self.user_code@,
            verification_uri: self.verification_uri@,
            expires_in: self.expires_in,
            interval: self.interval,
        }
    }
}

/// The form fields sent with each poll for authorization.
#[derive(Debug, Clone)]
pub struct CheckAuthorisationRequest {
    pub client_id: String,
    pub device_code: String,
    pub grant_type: String,
}

/// The credential issued once the user has approved the login.
#[derive(Debug, Clone)]
pub struct CheckAuthorisationResponse {
    pub access_token: String,
    pub token_type: String,
    pub scope: String,
}

/// Mathematical content of a [`CheckAuthorisationResponse`].
pub ghost struct AuthorizationView {
    pub access_token: Seq<char>,
    pub token_type: Seq<char>,
    pub scope: Seq<char>,
}

impl View for CheckAuthorisationResponse {
    type V = AuthorizationView;

    open spec fn view(&self) -> AuthorizationView {
        AuthorizationView {
            access_token: self.access_token@,
            token_type: self.token_type@,
            scope: self.scope@,
        }
    }
}

/// A user as any identity provider describes one.
#[derive(Debug, Clone)]
pub struct AuthenticatedUser {
    /// Identifier the provider assigned to the user.
    pub provider_id: String,
    /// Handle the user goes by at the provider.
    pub username: String,
    /// E-mail address, where the provider discloses one.
    pub email: Option<String>,
    /// Name to display, where the provider holds one.
    pub display_name: Option<String>,
}

/// Mathematical content of an [`AuthenticatedUser`].
pub ghost struct IdentityView {
    pub provider_id: Seq<char>,
    pub username: Seq<char>,
    pub email: Option<Seq<char>>,
    pub display_name: Option<Seq<char>>,
}

impl View for AuthenticatedUser {
    type V = IdentityView;

    open spec fn view(&self) -> IdentityView {
        IdentityView {
            provider_id: self.provider_id@,
            username: self.username@,
            email: optional_text(self.email),
            display_name: optional_text(self.display_name),
        }
    }
}

/// A user as GitHub's identity endpoint describes one.
#[derive(Debug, Clone)]
pub struct GitHubUser {
    pub id: u64,
    pub login: String,
    pub email: Option<String>,
    pub name: Option<String>,
}

/// Mathematical content of a [`GitHubUser`].
pub ghost struct GitHubUserView {
    pub id: u64,
    pub login: Seq<char>,
    pub email: Option<Seq<char>>,
    pub name: Option<Seq<char>>,
}

impl View for GitHubUser {
    type V = GitHubUserView;

    open spec fn view(&self) -> GitHubUserView {
        GitHubUserView {
            id: self.id,
            login: self.login@,
            email: optional_text(self.email),
            name: optional_text(self.name),
        }
    }
}

/// How a login attempt can fail for good.
#[derive(Debug, Clone)]
pub enum AuthError {
    /// The polling window ran out, or the provider let the device code expire.
    UserAuthenticationTimeout,
    /// The user declined the request.
    UserDeniedAuthentication,
    /// The operator has misconfigured the client.
    ServerConfigurationError { debug_info: String },
    /// The provider behaved in a way the client does not understand.
    InternalServerError { debug_info: String },
}

/// Mathematical content of an [`AuthError`].
pub ghost enum AuthFailure {
    Timeout,
    Denied,
    Configuration { debug_info: Seq<char> },
    Internal { debug_info: Seq<char> },
}

impl View for AuthError {
    type V = AuthFailure;

    open spec fn view(&self) -> AuthFailure {
        match self {
            AuthError::UserAuthenticationTimeout => AuthFailure::Timeout,
            AuthError::UserDeniedAuthentication => AuthFailure::Denied,
            AuthError::ServerConfigurationError { debug_info } => AuthFailure::Configuration {
                debug_info: debug_info@,
            },
            AuthError::InternalServerError { debug_info } => AuthFailure::Internal {
                debug_info: debug_info@,
            },
        }
    }
}

/// The message an end user is shown for a failure. It never discloses the
/// debugging detail.
pub open spec fn user_message(failure: AuthFailure) -> Seq<char> {
    match failure {
        AuthFailure::Timeout => "Authentication timed out. Please try logging in again."@,
        AuthFailure::Denied =>
            "Authentication was denied. Please check your permissions and try again."@,
        AuthFailure::Configuration { .. } =>
            "Something went wrong on our end. We're looking into it."@,
        AuthFailure::Internal { .. } =>
            "Something went wrong on our end. We're looking into it."@,
    }
}

/// The message a developer is shown for a failure: as the user's message,
/// except that the two server-side failures disclose their debugging detail.
pub open spec fn developer_message(failure: AuthFailure) -> Seq<char> {
    match failure {
        AuthFailure::Configuration { debug_info } =>
            "Server configuration error. [DEBUG: "@ + debug_info + "]"@,
        AuthFailure::Internal { debug_info } =>
            "Internal server error. [DEBUG: "@ + debug_info + "]"@,
        _ => user_message(failure),
    }
}

impl AuthError {
    /// The message for end users. The two server-side failures share one
    /// vague sentence, whatever their debugging detail.
    pub fn message(&self) -> (text: String)
        ensures
            text@ == user_message(self@),
    {
        match self {
            AuthError::UserAuthenticationTimeout => {
                "Authentication timed out. Please try logging in again.".to_owned()
            },
            AuthError::UserDeniedAuthentication => {
                "Authentication was denied. Please check your permissions and try again.".to_owned()
            },
            AuthError::ServerConfigurationError { .. } => {
                "Something went wrong on our end. We're looking into it.".to_owned()
            },
            AuthError::InternalServerError { .. } => {
                "Something went wrong on our end. We're looking into it.".to_owned()
            },
        }
    }

    /// The message for developers, which discloses the debugging detail of
    /// the two server-side failures.
    pub fn debug_message(&self) -> (text: String)
        ensures
            text@ == developer_message(self@),
    {
        match self {
            AuthError::ServerConfigurationError { debug_info } => {
                let head = joined("Server configuration error. [DEBUG: ", debug_info.as_str());
                joined(head.as_str(), "]")
            },
            AuthError::InternalServerError { debug_info } => {
                let head = joined("Internal server error. [DEBUG: ", debug_info.as_str());
                joined(head.as_str(), "]")
            },
            _ => self.message(),
        }
    }
}

} // verus!
