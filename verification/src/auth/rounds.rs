//! Whole runs of the polling loop, and what holds of them.
//!
//! A run is modelled in virtual time: the clock moves only while the loop
//! sleeps, and each poll is answered the moment its sleep ends. The model is
//! built from the same step and update functions that the contracts of
//! [`PollState`](crate::auth::polling::PollState) are stated in.

use vstd::prelude::*;
use crate::auth::polling::{
    outcome_of, payload_of, poll_payload, reason_outcome, PollOutcomeView, PollStateView,
    PollStepView, POLL_CEILING_SECS, SLOW_DOWN_STEP_SECS,
};
use crate::auth::types::{AuthFailure, AuthorizationView};
use crate::json::text_field;

verus! {

/// How a run ended.
pub ghost struct Run {
    /// Polls sent.
    pub polls: nat,
    /// The clock when the run ended.
    pub ended_at: nat,
    /// The state the run ended in.
    pub state: PollStateView,
    /// The terminal outcome, or `None` where the replies ran out first.
    pub verdict: Option<PollOutcomeView>,
}

/// The run that starts at `now` in `state` and receives `replies` in order,
/// one per poll.
pub open spec fn run(state: PollStateView, now: nat, replies: Seq<PollOutcomeView>) -> Run
    decreases replies.len(),
{
    if state.step_at(now) is TimedOut {
        Run {
            polls: 0,
            ended_at: now,
            state,
            verdict: Some(PollOutcomeView::Failed(AuthFailure::Timeout)),
        }
    } else if replies.len() == 0 {
        Run { polls: 0, ended_at: now, state, verdict: None }
    } else {
        let woke = now + state.current_interval;
        let next = state.after(replies[0]);
        if replies[0].is_terminal() {
            Run { polls: 1, ended_at: woke, state: next, verdict: Some(replies[0]) }
        } else {
            let rest = run(next, woke, replies.drop_first());
            Run { polls: rest.polls + 1, ..rest }
        }
    }
}

/// Whatever the provider answers, a run keeps the invariant of the state: it
/// leaves the start time and the starting interval alone and never shortens
/// the interval. It sends at most one poll per reply, none of them in a
/// round that begins at or after the ceiling, and the clock never goes back.
pub proof fn law_run_keeps_invariant(
    state: PollStateView,
    now: nat,
    replies: Seq<PollOutcomeView>,
)
    requires
        state.wf(),
    ensures
        run(state, now, replies).state.wf(),
        run(state, now, replies).state.started_at == state.started_at,
        run(state, now, replies).state.base_interval == state.base_interval,
        run(state, now, replies).state.current_interval >= state.current_interval,
        run(state, now, replies).polls <= replies.len(),
        run(state, now, replies).polls > 0 ==> state.elapsed(now) < POLL_CEILING_SECS,
        run(state, now, replies).ended_at >= now,
    decreases replies.len(),
{
    if !(state.step_at(now) is TimedOut) && replies.len() > 0 && !replies[0].is_terminal() {
        law_run_keeps_invariant(
            state.after(replies[0]),
            now + state.current_interval,
            replies.drop_first(),
        );
    }
}

/// A response classified as pending keeps the loop going and changes nothing:
/// the interval stays, and the next round applies the same ceiling check.
pub proof fn law_pending_changes_nothing(state: PollStateView, body: Seq<char>, now: nat)
    requires
        outcome_of(poll_payload(body)) is Pending,
    ensures
        !outcome_of(poll_payload(body)).is_terminal(),
        state.after(outcome_of(poll_payload(body))) == state,
        state.after(outcome_of(poll_payload(body))).step_at(now) == state.step_at(now),
{
}

/// A response classified as a request to slow down keeps the loop going and
/// lengthens the interval by exactly the fixed step, so strictly.
pub proof fn law_slow_down_lengthens_interval(state: PollStateView, body: Seq<char>)
    requires
        outcome_of(poll_payload(body)) is SlowDown,
    ensures
        !outcome_of(poll_payload(body)).is_terminal(),
        state.after(outcome_of(poll_payload(body))).current_interval == state.current_interval
            + SLOW_DOWN_STEP_SECS,
        state.after(outcome_of(poll_payload(body))).current_interval > state.current_interval,
        state.after(outcome_of(poll_payload(body))).started_at == state.started_at,
        state.after(outcome_of(poll_payload(body))).base_interval == state.base_interval,
        state.wf() ==> state.after(outcome_of(poll_payload(body))).wf(),
{
}

/// Once the ceiling is reached at the top of a round, the attempt times out
/// without another poll, whatever the provider said last.
pub proof fn law_ceiling_is_final(
    state: PollStateView,
    last: PollOutcomeView,
    now: nat,
    replies: Seq<PollOutcomeView>,
)
    requires
        state.elapsed(now) >= POLL_CEILING_SECS,
    ensures
        state.after(last).step_at(now) is TimedOut,
        run(state.after(last), now, replies).verdict == Some(
            PollOutcomeView::Failed(AuthFailure::Timeout),
        ),
        run(state.after(last), now, replies).polls == 0,
{
}

/// A body that holds a success object and no error object is classified as
/// authorized, with the access token, token type and scope it holds.
pub proof fn law_success_payload_authorizes(
    body: Seq<char>,
    access_token: Seq<char>,
    token_type: Seq<char>,
    scope: Seq<char>,
)
    requires
        text_field(body, "access_token"@) == Some(access_token),
        text_field(body, "token_type"@) == Some(token_type),
        text_field(body, "scope"@) == Some(scope),
        text_field(body, "error"@) is None,
    ensures
        outcome_of(poll_payload(body)) == PollOutcomeView::Authorized(
            AuthorizationView { access_token, token_type, scope },
        ),
{
}

/// An authorization received in any round before the ceiling ends the run
/// there: that poll is the last one, and the verdict is the credential it
/// brought.
pub proof fn law_authorization_ends_run(
    state: PollStateView,
    now: nat,
    replies: Seq<PollOutcomeView>,
    grant: AuthorizationView,
)
    requires
        state.elapsed(now) < POLL_CEILING_SECS,
        replies.len() > 0,
        replies[0] == PollOutcomeView::Authorized(grant),
    ensures
        run(state, now, replies).polls == 1,
        run(state, now, replies).verdict == Some(PollOutcomeView::Authorized(grant)),
        run(state, now, replies).state == state,
{
}

/// An error object whose reason is `access_denied` means that the user
/// declined.
pub proof fn law_access_denied_is_denial(
    description: Option<Seq<char>>,
    uri: Option<Seq<char>>,
    access_token: Option<Seq<char>>,
    token_type: Option<Seq<char>>,
    scope: Option<Seq<char>>,
)
    requires
        description is Some,
        uri is Some,
    ensures
        reason_outcome("access_denied"@) == PollOutcomeView::Failed(AuthFailure::Denied),
        outcome_of(
            payload_of(Some("access_denied"@), description, uri, access_token, token_type, scope),
        ) == PollOutcomeView::Failed(AuthFailure::Denied),
{
    reveal_strlit("access_denied");
    reveal_strlit("authorization_pending");
    reveal_strlit("slow_down");
    reveal_strlit("expired_token");
    assert("access_denied"@.len() != "authorization_pending"@.len());
    assert("access_denied"@.len() != "slow_down"@.len());
    assert("access_denied"@[0] != "expired_token"@[0]);
}

/// A denial received in any round before the ceiling ends the run there: it
/// is never retried.
pub proof fn law_denial_ends_run(state: PollStateView, now: nat, replies: Seq<PollOutcomeView>)
    requires
        state.elapsed(now) < POLL_CEILING_SECS,
        replies.len() > 0,
        replies[0] == PollOutcomeView::Failed(AuthFailure::Denied),
    ensures
        run(state, now, replies).polls == 1,
        run(state, now, replies).verdict == Some(PollOutcomeView::Failed(AuthFailure::Denied)),
{
}

/// Where the provider answers `pending` times with a pending authorization
/// and then with a credential, and the ceiling is not reached before the last
/// of these rounds begins, the run sends exactly `pending + 1` polls, sleeps
/// the same interval before each, and ends with that credential.
pub proof fn law_pending_then_authorized(
    state: PollStateView,
    now: nat,
    replies: Seq<PollOutcomeView>,
    pending: nat,
    grant: AuthorizationView,
)
    requires
        now >= state.started_at,
        replies.len() > pending,
        forall|i: int| 0 <= i < pending ==> replies[i] is Pending,
        replies[pending as int] == PollOutcomeView::Authorized(grant),
        state.elapsed(now) + pending * state.current_interval < POLL_CEILING_SECS,
    ensures
        run(state, now, replies) == (Run {
            polls: pending + 1,
            ended_at: now + (pending + 1) * state.current_interval,
            state,
            verdict: Some(PollOutcomeView::Authorized(grant)),
        }),
    decreases pending,
{
    let interval = state.current_interval;
    assert(pending * interval >= 0) by (nonlinear_arith)
        requires
            pending >= 0,
            interval >= 0,
    ;
    if pending == 0 {
        assert((pending + 1) * interval == interval) by (nonlinear_arith)
            requires
                pending == 0,
        ;
    } else {
        let rest = replies.drop_first();
        let earlier = (pending - 1) as nat;
        assert(pending * interval == earlier * interval + interval) by (nonlinear_arith)
            requires
                earlier == pending - 1,
        ;
        assert((pending + 1) * interval == (earlier + 1) * interval + interval)
            by (nonlinear_arith)
            requires
                earlier == pending - 1,
        ;
        assert(replies[0] is Pending);
        assert forall|i: int| 0 <= i < earlier implies rest[i] is Pending by {
            assert(rest[i] == replies[i + 1]);
        }
        assert(rest[earlier as int] == replies[pending as int]);
        law_pending_then_authorized(state, now + interval, rest, earlier, grant);
    }
}

/// Where the provider asks once to slow down and then reports a denial, and
/// the ceiling is not reached before the second round begins, the run sends
/// exactly two polls, sleeps the fixed step longer before the second than
/// before the first, and ends with the denial.
pub proof fn law_slow_down_then_denied(
    state: PollStateView,
    now: nat,
    replies: Seq<PollOutcomeView>,
)
    requires
        now >= state.started_at,
        replies.len() >= 2,
        replies[0] is SlowDown,
        replies[1] == PollOutcomeView::Failed(AuthFailure::Denied),
        state.elapsed(now) + state.current_interval < POLL_CEILING_SECS,
    ensures
        state.step_at(now) == (PollStepView::SleepThenPoll { seconds: state.current_interval }),
        state.after(replies[0]).step_at(now + state.current_interval) == (
        PollStepView::SleepThenPoll {
            seconds: state.current_interval + SLOW_DOWN_STEP_SECS as nat,
        }),
        run(state, now, replies) == (Run {
            polls: 2,
            ended_at: now + state.current_interval + state.current_interval
                + SLOW_DOWN_STEP_SECS as nat,
            state: state.after(replies[0]),
            verdict: Some(PollOutcomeView::Failed(AuthFailure::Denied)),
        }),
{
    let rest = replies.drop_first();
    assert(rest[0] == replies[1]);
    let slower = state.after(replies[0]);
    let woke = now + state.current_interval;
    assert(slower.elapsed(woke) < POLL_CEILING_SECS);
    assert(run(slower, woke, rest).polls == 1);
}

/// Where the provider only ever answers with a pending authorization, the
/// run ends with a timeout, at the first round that begins at or after the
/// ceiling: not before the ceiling, and less than one interval after it.
pub proof fn law_only_pending_times_out(
    state: PollStateView,
    now: nat,
    replies: Seq<PollOutcomeView>,
)
    requires
        now >= state.started_at,
        state.current_interval >= 1,
        forall|i: int| 0 <= i < replies.len() ==> replies[i] is Pending,
        state.elapsed(now) + replies.len() * state.current_interval >= POLL_CEILING_SECS,
    ensures
        run(state, now, replies).verdict == Some(PollOutcomeView::Failed(AuthFailure::Timeout)),
        run(state, now, replies).state == state,
        run(state, now, replies).ended_at == now + run(state, now, replies).polls
            * state.current_interval,
        state.elapsed(run(state, now, replies).ended_at) >= POLL_CEILING_SECS,
        state.elapsed(now) < POLL_CEILING_SECS ==> state.elapsed(
            run(state, now, replies).ended_at,
        ) < POLL_CEILING_SECS + state.current_interval,
    decreases replies.len(),
{
    let interval = state.current_interval;
    if state.elapsed(now) >= POLL_CEILING_SECS {
        assert(0 * interval == 0) by (nonlinear_arith);
    } else {
        if replies.len() == 0 {
            assert(replies.len() * interval == 0) by (nonlinear_arith)
                requires
                    replies.len() == 0,
            ;
        }
        let rest = replies.drop_first();
        assert(replies[0] is Pending);
        assert forall|i: int| 0 <= i < rest.len() implies rest[i] is Pending by {
            assert(rest[i] == replies[i + 1]);
        }
        assert(replies.len() * interval == rest.len() * interval + interval)
            by (nonlinear_arith)
            requires
                rest.len() == replies.len() - 1,
        ;
        law_only_pending_times_out(state, now + interval, rest);
        let tail = run(state, now + interval, rest);
        assert((tail.polls + 1) * interval == tail.polls * interval + interval)
            by (nonlinear_arith);
    }
}

} // verus!
