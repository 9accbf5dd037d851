//! The login from end to end: ask for a device code, wait for the user's
//! decision, fetch the identity.
//!
//! The provider does the talking. What the flow does with each of its
//! answers is decided by [`after_device_code`], [`after_authorization`] and
//! [`after_user`], which a caller with a provider of another shape can use
//! directly.

use vstd::prelude::*;
use crate::auth::token_service::{is_random_uuid, token_hash, TokenService};
use crate::auth::types::{AuthError, AuthFailure, AuthenticatedUser, DeviceCodeResponse};
use crate::errors::{DomainError, Failure};
use crate::models::AuthToken;

verus! {

/// A provider of the device flow. Implementations talk to the provider;
/// nothing is promised of what they return.
pub trait DeviceFlowProvider {
    /// Asks for a new device code.
    fn request_device_code(&self) -> Result<DeviceCodeResponse, DomainError>;

    /// Waits for the user's decision and returns the access token issued.
    fn poll_authorization(&self, device_code: &str) -> Result<String, AuthError>;

    /// Fetches the user that an access token belongs to.
    fn get_user(&self, access_token: &str) -> Result<AuthenticatedUser, DomainError>;
}

/// Why a login did not complete.
#[derive(Debug, Clone)]
pub enum AuthFlowError {
    /// The provider could not be asked, or its answer could not be read.
    Provider(DomainError),
    /// The authorization ended in a failure.
    Authorization(AuthError),
}

/// Mathematical content of an [`AuthFlowError`].
pub ghost enum FlowFailure {
    Provider(Failure),
    Authorization(AuthFailure),
}

impl View for AuthFlowError {
    type V = FlowFailure;

    open spec fn view(&self) -> FlowFailure {
        match self {
            AuthFlowError::Provider(error) => FlowFailure::Provider(error@),
            AuthFlowError::Authorization(error) => FlowFailure::Authorization(error@),
        }
    }
}

/// The device code to poll with after the provider answered the
/// device-code request, or the failure to stop with.
pub fn after_device_code(reply: Result<DeviceCodeResponse, DomainError>) -> (next: Result<
    String,
    AuthFlowError,
>)
    ensures
        match reply {
            Ok(device) => next == Ok::<String, AuthFlowError>(device.device_code),
            Err(error) => next == Err::<String, AuthFlowError>(AuthFlowError::Provider(error)),
        },
{
    match reply {
        Ok(device) => Ok(device.device_code),
        Err(error) => Err(AuthFlowError::Provider(error)),
    }
}

/// The access token to fetch the user with after the authorization ended,
/// or the failure to stop with. A failure is never retried, and without a
/// token the user is never fetched.
pub fn after_authorization(reply: Result<String, AuthError>) -> (next: Result<
    String,
    AuthFlowError,
>)
    ensures
        match reply {
            Ok(token) => next == Ok::<String, AuthFlowError>(token),
            Err(error) => next == Err::<String, AuthFlowError>(
                AuthFlowError::Authorization(error),
            ),
        },
{
    match reply {
        Ok(token) => Ok(token),
        Err(error) => Err(AuthFlowError::Authorization(error)),
    }
}

/// How the flow ends once the provider has answered the request for the
/// user: with that user, or with the provider's failure.
pub open spec fn flow_end(reply: Result<AuthenticatedUser, DomainError>) -> Result<
    AuthenticatedUser,
    AuthFlowError,
> {
    match reply {
        Ok(user) => Ok(user),
        Err(error) => Err(AuthFlowError::Provider(error)),
    }
}

/// The end of the flow after the provider answered the request for the
/// user: that user, or the provider's failure.
pub fn after_user(reply: Result<AuthenticatedUser, DomainError>) -> (end: Result<
    AuthenticatedUser,
    AuthFlowError,
>)
    ensures
        end == flow_end(reply),
{
    match reply {
        Ok(user) => Ok(user),
        Err(error) => Err(AuthFlowError::Provider(error)),
    }
}

/// A freshly issued API token, with its expiry in seconds since the Unix
/// epoch if it has one.
#[derive(Debug, Clone)]
pub struct ApiToken {
    pub token: String,
    pub expiry: Option<i64>,
}

/// Runs logins against one provider.
pub struct AuthService<P: DeviceFlowProvider> {
    provider: P,
}

impl<P: DeviceFlowProvider> AuthService<P> {
    /// The provider the service was made with.
    pub closed spec fn provider(&self) -> P {
        self.provider
    }

    /// Makes a service that talks to `provider`.
    pub fn new(provider: P) -> (service: Self)
        ensures
            service.provider() == provider,
    {
        AuthService { provider }
    }

    /// Whether `reply` is an answer the provider may give to a request for a
    /// device code.
    pub open spec fn may_issue(&self, reply: Result<DeviceCodeResponse, DomainError>) -> bool {
        call_ensures(P::request_device_code, (&self.provider(),), reply)
    }

    /// Whether `reply` is an answer the provider may give when asked to wait
    /// for the decision on `device_code`.
    pub open spec fn may_authorize(&self, device_code: &str, reply: Result<String, AuthError>) -> bool {
        call_ensures(P::poll_authorization, (&self.provider(), device_code), reply)
    }

    /// Whether `reply` is an answer the provider may give when asked for the
    /// user that `access_token` belongs to.
    pub open spec fn may_identify(
        &self,
        access_token: &str,
        reply: Result<AuthenticatedUser, DomainError>,
    ) -> bool {
        call_ensures(P::get_user, (&self.provider(), access_token), reply)
    }

    /// Whether a wait can end with `end` once the provider has answered the
    /// wait with `decision`: a failure ends it as it is; a token is handed
    /// to the provider, whose answer ends it.
    pub open spec fn ends_after(
        &self,
        decision: Result<String, AuthError>,
        end: Result<AuthenticatedUser, AuthFlowError>,
    ) -> bool {
        match decision {
            Err(error) => end == Err::<AuthenticatedUser, AuthFlowError>(
                AuthFlowError::Authorization(error),
            ),
            Ok(token) => exists|access_token: &str, user: Result<AuthenticatedUser, DomainError>|
                access_token@ == token@ && #[trigger] self.may_identify(access_token, user) && end
                    == flow_end(user),
        }
    }

    /// Whether a wait for the decision on `device_code` can end with `end`.
    pub open spec fn may_end_wait(
        &self,
        device_code: &str,
        end: Result<AuthenticatedUser, AuthFlowError>,
    ) -> bool {
        exists|decision: Result<String, AuthError>| #[trigger]
            self.may_authorize(device_code, decision) && self.ends_after(decision, end)
    }

    /// Whether a whole login can end with `end`: a failed request for a
    /// device code ends it as it is; otherwise the wait on the code issued
    /// ends it.
    pub open spec fn may_end_login(&self, end: Result<AuthenticatedUser, AuthFlowError>) -> bool {
        exists|issued: Result<DeviceCodeResponse, DomainError>| #[trigger]
            self.may_issue(issued) && match issued {
                Err(error) => end == Err::<AuthenticatedUser, AuthFlowError>(
                    AuthFlowError::Provider(error),
                ),
                Ok(device) => exists|device_code: &str|
                    device_code@ == device.device_code@ && #[trigger] self.may_end_wait(
                        device_code,
                        end,
                    ),
            }
    }

    /// Asks the provider for a device code and hands its answer on.
    /// Showing the code to the user is the caller's part.
    pub fn begin_device_authorization(&self) -> (issued: Result<DeviceCodeResponse, DomainError>)
        ensures
            self.may_issue(issued),
    {
        self.provider.request_device_code()
    }

    /// Waits for the user's decision on a device code and, if the user
    /// approved, fetches the identity. The provider is asked for the
    /// decision once; its failure ends the wait as it is, and only a token
    /// it issued is used to ask for the user, once.
    pub fn await_authorization(&self, device_code: &str) -> (end: Result<
        AuthenticatedUser,
        AuthFlowError,
    >)
        ensures
            self.may_end_wait(device_code, end),
    {
        let decision = self.provider.poll_authorization(device_code);
        assert(self.may_authorize(device_code, decision));
        match after_authorization(decision) {
            Ok(token) => {
                let access_token = token.as_str();
                let user = self.provider.get_user(access_token);
                assert(self.may_identify(access_token, user));
                let end = after_user(user);
                assert(self.ends_after(decision, end));
                end
            },
            Err(error) => {
                let end = Err(error);
                assert(self.ends_after(decision, end));
                end
            },
        }
    }

    /// Runs a whole login: device code, authorization, identity. The first
    /// failure ends it.
    pub fn complete_auth_flow(&self) -> (end: Result<AuthenticatedUser, AuthFlowError>)
        ensures
            self.may_end_login(end),
    {
        let issued = self.begin_device_authorization();
        match after_device_code(issued) {
            Ok(code) => {
                let device_code = code.as_str();
                let end = self.await_authorization(device_code);
                assert(self.may_end_wait(device_code, end));
                end
            },
            Err(error) => Err(error),
        }
    }

    /// Issues an API token for a user at time `now`: draws a fresh token and
    /// a fresh record id, and builds the record to store, which holds the
    /// token's hash under the user's id as salt and never the token itself.
    /// The token handed back does not expire. Storing the record is the
    /// caller's part.
    pub fn create_api_token(&self, user_id: &str, now: i64) -> (issued: (ApiToken, AuthToken))
        ensures
            is_random_uuid(issued.0.token@),
            issued.0.expiry is None,
            is_random_uuid(issued.1.id@),
            issued.1.user_id@ == user_id@,
            issued.1.token_hash@ == token_hash(issued.0.token@, user_id@),
            issued.1.name is None,
            issued.1.last_used_at is None,
            issued.1.expires_at is None,
            issued.1.created_at == now,
    {
        let token = TokenService::generate_api_token();
        let token_hash = TokenService::hash_token(token.as_str(), user_id);
        let record = AuthToken {
            id: TokenService::generate_api_token(),
            user_id: user_id.to_owned(),
            token_hash,
            name: None,
            last_used_at: None,
            expires_at: None,
            created_at: now,
        };
        (ApiToken { token, expiry: None }, record)
    }
}

} // verus!
