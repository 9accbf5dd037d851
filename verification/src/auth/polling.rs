//! The polling state machine of the device flow.
//!
//! The caller owns the clock, the sleep and the network. At the top of each
//! round it asks [`PollState::next_step`] what to do; after each poll it
//! hands the response body to [`PollState::on_response`]. Times and
//! intervals are whole seconds.

use vstd::prelude::*;
use vstd::string::*;
use crate::auth::types::{AuthError, AuthFailure, AuthorizationView, CheckAuthorisationResponse};
use crate::json::{parse_document, string_member, text_field};
use crate::text::{joined, optional_text, same_text};

verus! {

/// Seconds after which polling stops, whatever lifetime the provider
/// advertised.
pub const POLL_CEILING_SECS: u64 = 900;

/// Seconds between polls where the provider advertised no interval.
pub const DEFAULT_INTERVAL_SECS: u64 = 5;

/// Seconds by which the interval grows each time the provider asks the
/// client to slow down.
pub const SLOW_DOWN_STEP_SECS: u64 = 2;

/// What the body of one poll response holds.
#[derive(Debug, Clone)]
pub enum PollPayload {
    /// An error object; `reason` is its `error` member.
    Error { reason: String },
    /// A success object.
    Success(CheckAuthorisationResponse),
    /// Neither of the two.
    Unreadable,
}

/// Mathematical content of a [`PollPayload`].
pub ghost enum PollPayloadView {
    Error { reason: Seq<char> },
    Success(AuthorizationView),
    Unreadable,
}

impl View for PollPayload {
    type V = PollPayloadView;

    open spec fn view(&self) -> PollPayloadView {
        match self {
            PollPayload::Error { reason } => PollPayloadView::Error { reason: reason@ },
            PollPayload::Success(grant) => PollPayloadView::Success(grant@),
            PollPayload::Unreadable => PollPayloadView::Unreadable,
        }
    }
}

/// What one poll response means for the login attempt.
#[derive(Debug, Clone)]
pub enum PollOutcome {
    /// The user has not decided yet: poll again.
    Pending,
    /// The provider wants longer intervals: poll again, more slowly.
    SlowDown,
    /// The user approved: the attempt ends with this credential.
    Authorized(CheckAuthorisationResponse),
    /// The attempt ends with this failure.
    Failed(AuthError),
}

/// Mathematical content of a [`PollOutcome`].
pub ghost enum PollOutcomeView {
    Pending,
    SlowDown,
    Authorized(AuthorizationView),
    Failed(AuthFailure),
}

impl View for PollOutcome {
    type V = PollOutcomeView;

    open spec fn view(&self) -> PollOutcomeView {
        match self {
            PollOutcome::Pending => PollOutcomeView::Pending,
            PollOutcome::SlowDown => PollOutcomeView::SlowDown,
            PollOutcome::Authorized(grant) => PollOutcomeView::Authorized(grant@),
            PollOutcome::Failed(error) => PollOutcomeView::Failed(error@),
        }
    }
}

impl PollOutcomeView {
    /// Whether the outcome ends the attempt.
    pub open spec fn is_terminal(self) -> bool {
        self is Authorized || self is Failed
    }
}

/// The payload that six optional string members amount to. An error object
/// needs `error`, `error_description` and `error_uri`; a success object
/// needs `access_token`, `token_type` and `scope`. The error object is
/// looked for first.
pub open spec fn payload_of(
    error: Option<Seq<char>>,
    error_description: Option<Seq<char>>,
    error_uri: Option<Seq<char>>,
    access_token: Option<Seq<char>>,
    token_type: Option<Seq<char>>,
    scope: Option<Seq<char>>,
) -> PollPayloadView {
    if error is Some && error_description is Some && error_uri is Some {
        PollPayloadView::Error { reason: error->0 }
    } else if access_token is Some && token_type is Some && scope is Some {
        PollPayloadView::Success(
            AuthorizationView {
                access_token: access_token->0,
                token_type: token_type->0,
                scope: scope->0,
            },
        )
    } else {
        PollPayloadView::Unreadable
    }
}

/// The payload that a response body holds.
pub open spec fn poll_payload(body: Seq<char>) -> PollPayloadView {
    payload_of(
        text_field(body, "error"@),
        text_field(body, "error_description"@),
        text_field(body, "error_uri"@),
        text_field(body, "access_token"@),
        text_field(body, "token_type"@),
        text_field(body, "scope"@),
    )
}

/// What an error object with the given reason means.
pub open spec fn reason_outcome(reason: Seq<char>) -> PollOutcomeView {
    if reason == "authorization_pending"@ {
        PollOutcomeView::Pending
    } else if reason == "slow_down"@ {
        PollOutcomeView::SlowDown
    } else if reason == "expired_token"@ {
        PollOutcomeView::Failed(AuthFailure::Timeout)
    } else if reason == "access_denied"@ {
        PollOutcomeView::Failed(AuthFailure::Denied)
    } else if reason == "incorrect_client_credentials"@ {
        PollOutcomeView::Failed(
            AuthFailure::Configuration {
                debug_info: "Invalid client credentials such as client_id"@,
            },
        )
    } else if reason == "incorrect_device_code"@ {
        PollOutcomeView::Failed(AuthFailure::Configuration { debug_info: "Incorrect Device Code"@ })
    } else if reason == "unsupported_grant_type"@ {
        PollOutcomeView::Failed(AuthFailure::Internal { debug_info: "Unsupported grant type"@ })
    } else if reason == "device_flow_disabled"@ {
        PollOutcomeView::Failed(
            AuthFailure::Internal { debug_info: "Device flow disabled in github app settings"@ },
        )
    } else {
        PollOutcomeView::Failed(
            AuthFailure::Internal { debug_info: "Unrecognized error reason: "@ + reason },
        )
    }
}

/// What a payload means for the login attempt.
pub open spec fn outcome_of(payload: PollPayloadView) -> PollOutcomeView {
    match payload {
        PollPayloadView::Error { reason } => reason_outcome(reason),
        PollPayloadView::Success(grant) => PollOutcomeView::Authorized(grant),
        PollPayloadView::Unreadable => PollOutcomeView::Failed(
            AuthFailure::Internal { debug_info: "Failed to parse success response"@ },
        ),
    }
}

/// Builds the payload from the six string members a response may hold.
pub fn payload_from_fields(
    error: Option<String>,
    error_description: Option<String>,
    error_uri: Option<String>,
    access_token: Option<String>,
    token_type: Option<String>,
    scope: Option<String>,
) -> (payload: PollPayload)
    ensures
        payload@ == payload_of(
            optional_text(error),
            optional_text(error_description),
            optional_text(error_uri),
            optional_text(access_token),
            optional_text(token_type),
            optional_text(scope),
        ),
{
    match (error, error_description, error_uri) {
        (Some(reason), Some(_), Some(_)) => PollPayload::Error { reason },
        _ => match (access_token, token_type, scope) {
            (Some(access_token), Some(token_type), Some(scope)) => PollPayload::Success(
                CheckAuthorisationResponse { access_token, token_type, scope },
            ),
            _ => PollPayload::Unreadable,
        },
    }
}

/// Reads the payload out of a response body.
pub fn read_poll_payload(body: &str) -> (payload: PollPayload)
    ensures
        payload@ == poll_payload(body@),
{
    match parse_document(body) {
        None => PollPayload::Unreadable,
        Some(doc) => payload_from_fields(
            string_member(&doc, "error"),
            string_member(&doc, "error_description"),
            string_member(&doc, "error_uri"),
            string_member(&doc, "access_token"),
            string_member(&doc, "token_type"),
            string_member(&doc, "scope"),
        ),
    }
}

/// Decides what an error object with the given reason means.
pub fn classify_reason(reason: &str) -> (outcome: PollOutcome)
    ensures
        outcome@ == reason_outcome(reason@),
{
    if same_text(reason, "authorization_pending") {
        PollOutcome::Pending
    } else if same_text(reason, "slow_down") {
        PollOutcome::SlowDown
    } else if same_text(reason, "expired_token") {
        PollOutcome::Failed(AuthError::UserAuthenticationTimeout)
    } else if same_text(reason, "access_denied") {
        PollOutcome::Failed(AuthError::UserDeniedAuthentication)
    } else if same_text(reason, "incorrect_client_credentials") {
        PollOutcome::Failed(
            AuthError::ServerConfigurationError {
                debug_info: "Invalid client credentials such as client_id".to_owned(),
            },
        )
    } else if same_text(reason, "incorrect_device_code") {
        PollOutcome::Failed(
            AuthError::ServerConfigurationError { debug_info: "Incorrect Device Code".to_owned() },
        )
    } else if same_text(reason, "unsupported_grant_type") {
        PollOutcome::Failed(
            AuthError::InternalServerError { debug_info: "Unsupported grant type".to_owned() },
        )
    } else if same_text(reason, "device_flow_disabled") {
        PollOutcome::Failed(
            AuthError::InternalServerError {
                debug_info: "Device flow disabled in github app settings".to_owned(),
            },
        )
    } else {
        PollOutcome::Failed(
            AuthError::InternalServerError {
                debug_info: joined("Unrecognized error reason: ", reason),
            },
        )
    }
}

/// Decides what a payload means for the login attempt.
pub fn classify(payload: PollPayload) -> (outcome: PollOutcome)
    ensures
        outcome@ == outcome_of(payload@),
{
    match payload {
        PollPayload::Error { reason } => classify_reason(reason.as_str()),
        PollPayload::Success(grant) => PollOutcome::Authorized(grant),
        PollPayload::Unreadable => PollOutcome::Failed(
            AuthError::InternalServerError {
                debug_info: "Failed to parse success response".to_owned(),
            },
        ),
    }
}

impl PollOutcome {
    /// Whether the outcome ends the attempt.
    pub fn is_terminal(&self) -> (r: bool)
        ensures
            r == self@.is_terminal(),
    {
        match self {
            PollOutcome::Pending => false,
            PollOutcome::SlowDown => false,
            PollOutcome::Authorized(_) => true,
            PollOutcome::Failed(_) => true,
        }
    }

    /// The result the attempt ends with, or `None` while it goes on.
    pub fn into_result(self) -> (r: Option<Result<CheckAuthorisationResponse, AuthError>>)
        ensures
            match self {
                PollOutcome::Pending => r is None,
                PollOutcome::SlowDown => r is None,
                PollOutcome::Authorized(grant) => r == Some(
                    Ok::<CheckAuthorisationResponse, AuthError>(grant),
                ),
                PollOutcome::Failed(error) => r == Some(
                    Err::<CheckAuthorisationResponse, AuthError>(error),
                ),
            },
    {
        match self {
            PollOutcome::Pending => None,
            PollOutcome::SlowDown => None,
            PollOutcome::Authorized(grant) => Some(Ok(grant)),
            PollOutcome::Failed(error) => Some(Err(error)),
        }
    }
}

/// What the caller does next at the top of a round.
#[derive(Debug, Clone, Copy, PartialEq, Eq)]
pub enum PollStep {
    /// The polling window has run out: the attempt ends with
    /// [`AuthError::UserAuthenticationTimeout`].
    TimedOut,
    /// Sleep for this many seconds, then send one poll.
    SleepThenPoll { seconds: u64 },
}

/// Mathematical content of a [`PollStep`].
pub ghost enum PollStepView {
    TimedOut,
    SleepThenPoll { seconds: nat },
}

impl View for PollStep {
    type V = PollStepView;

    open spec fn view(&self) -> PollStepView {
        match self {
            PollStep::TimedOut => PollStepView::TimedOut,
            PollStep::SleepThenPoll { seconds } => PollStepView::SleepThenPoll {
                seconds: *seconds as nat,
            },
        }
    }
}

impl PollStep {
    /// The outcome the attempt ends with where the step is to give up: a
    /// timeout. `None` where the step is another poll.
    pub fn into_outcome(self) -> (outcome: Option<PollOutcome>)
        ensures
            match self {
                PollStep::TimedOut => outcome is Some && outcome->0@ == PollOutcomeView::Failed(
                    AuthFailure::Timeout,
                ),
                PollStep::SleepThenPoll { .. } => outcome is None,
            },
    {
        match self {
            PollStep::TimedOut => Some(PollOutcome::Failed(AuthError::UserAuthenticationTimeout)),
            PollStep::SleepThenPoll { .. } => None,
        }
    }
}

/// What the polling loop remembers between rounds.
#[derive(Debug, Clone, Copy)]
pub struct PollState {
    started_at: u64,
    base_interval: u64,
    current_interval: u64,
}

/// Mathematical content of a [`PollState`], in seconds.
pub ghost struct PollStateView {
    /// When the loop started.
    pub started_at: nat,
    /// The interval the loop started with.
    pub base_interval: nat,
    /// The interval the next sleep lasts.
    pub current_interval: nat,
}

impl View for PollState {
    type V = PollStateView;

    closed spec fn view(&self) -> PollStateView {
        PollStateView {
            started_at: self.started_at as nat,
            base_interval: self.base_interval as nat,
            current_interval: self.current_interval as nat,
        }
    }
}

impl PollStateView {
    /// The interval never drops below the one the loop started with.
    pub open spec fn wf(self) -> bool {
        self.current_interval >= self.base_interval
    }

    /// Seconds gone by at `now` since the loop started; zero for a clock
    /// that reads earlier than the start.
    pub open spec fn elapsed(self, now: nat) -> nat {
        if now >= self.started_at {
            (now - self.started_at) as nat
        } else {
            0
        }
    }

    /// What to do at the top of a round that begins at `now`.
    pub open spec fn step_at(self, now: nat) -> PollStepView {
        if self.elapsed(now) >= POLL_CEILING_SECS {
            PollStepView::TimedOut
        } else {
            PollStepView::SleepThenPoll { seconds: self.current_interval }
        }
    }

    /// The state after a poll with the given outcome: only a request to
    /// slow down changes it, and only the current interval.
    pub open spec fn after(self, outcome: PollOutcomeView) -> PollStateView {
        if outcome is SlowDown {
            PollStateView {
                current_interval: self.current_interval + SLOW_DOWN_STEP_SECS as nat,
                ..self
            }
        } else {
            self
        }
    }
}

/// The interval a loop starts with: the advertised one, or the default
/// where none was advertised.
pub open spec fn starting_interval(advertised: Option<u64>) -> nat {
    match advertised {
        Some(seconds) => seconds as nat,
        None => DEFAULT_INTERVAL_SECS as nat,
    }
}

impl PollState {
    /// The invariant of the state, which every method keeps.
    pub open spec fn wf(&self) -> bool {
        self@.wf()
    }

    /// Starts a loop at `now` with the interval the provider advertised.
    pub fn start(now: u64, advertised_interval: Option<u64>) -> (state: PollState)
        ensures
            state.wf(),
            state@ == (PollStateView {
                started_at: now as nat,
                base_interval: starting_interval(advertised_interval),
                current_interval: starting_interval(advertised_interval),
            }),
    {
        let interval: u64 = match advertised_interval {
            Some(seconds) => seconds,
            None => DEFAULT_INTERVAL_SECS,
        };
        PollState { started_at: now, base_interval: interval, current_interval: interval }
    }

    /// When the loop started.
    pub fn started_at(&self) -> (t: u64)
        ensures
            t == self@.started_at,
    {
        self.started_at
    }

    /// The interval the loop started with.
    pub fn base_interval(&self) -> (seconds: u64)
        ensures
            seconds == self@.base_interval,
    {
        self.base_interval
    }

    /// The interval the next sleep lasts.
    pub fn current_interval(&self) -> (seconds: u64)
        ensures
            seconds == self@.current_interval,
    {
        self.current_interval
    }

    /// Seconds gone by at `now` since the loop started.
    pub fn elapsed(&self, now: u64) -> (seconds: u64)
        ensures
            seconds == self@.elapsed(now as nat),
    {
        if now >= self.started_at {
            now - self.started_at
        } else {
            0
        }
    }

    /// Decides, at the top of a round that begins at `now`, between giving
    /// up and another poll. The answer depends on the clock alone: once the
    /// ceiling is reached the attempt times out, whatever the provider last
    /// said.
    pub fn next_step(&self, now: u64) -> (step: PollStep)
        ensures
            step@ == self@.step_at(now as nat),
            step is TimedOut <==> self@.elapsed(now as nat) >= POLL_CEILING_SECS,
    {
        if self.elapsed(now) >= POLL_CEILING_SECS {
            PollStep::TimedOut
        } else {
            PollStep::SleepThenPoll { seconds: self.current_interval }
        }
    }

    /// Whether the state can take in one more request to slow down without
    /// its interval leaving the range of `u64`.
    pub fn can_slow_down(&self) -> (r: bool)
        ensures
            r == (self@.current_interval + SLOW_DOWN_STEP_SECS <= u64::MAX),
    {
        self.current_interval <= u64::MAX - SLOW_DOWN_STEP_SECS
    }

    /// Takes in the outcome of one poll and says whether to poll again.
    /// A pending authorization leaves the state as it was; a request to
    /// slow down lengthens the interval by [`SLOW_DOWN_STEP_SECS`]; a
    /// terminal outcome leaves the state as it was and stops the loop.
    pub fn absorb(&mut self, outcome: &PollOutcome) -> (again: bool)
        requires
            old(self).wf(),
            old(self)@.current_interval + SLOW_DOWN_STEP_SECS <= u64::MAX,
        ensures
            final(self).wf(),
            final(self)@ == old(self)@.after(outcome@),
            again == !outcome@.is_terminal(),
    {
        match outcome {
            PollOutcome::Pending => true,
            PollOutcome::SlowDown => {
                self.current_interval = self.current_interval + SLOW_DOWN_STEP_SECS;
                true
            },
            PollOutcome::Authorized(_) => false,
            PollOutcome::Failed(_) => false,
        }
    }

    /// Takes in the body of one poll response: reads it, decides what it
    /// means and updates the state accordingly. The loop goes on exactly
    /// while the outcome is not terminal.
    pub fn on_response(&mut self, body: &str) -> (outcome: PollOutcome)
        requires
            old(self).wf(),
            old(self)@.current_interval + SLOW_DOWN_STEP_SECS <= u64::MAX,
        ensures
            final(self).wf(),
            outcome@ == outcome_of(poll_payload(body@)),
            final(self)@ == old(self)@.after(outcome@),
    {
        let outcome = classify(read_poll_payload(body));
        let _ = self.absorb(&outcome);
        outcome
    }
}

} // verus!
