//! The walk through a provider's recovery flow, one browser command at a
//! time.
//!
//! The caller owns the browser session. It performs the action the flow asks
//! for, reports what happened as an event, and gets the next action back,
//! until the flow hands out its result.

use crate::error::AppError;
use crate::headless::provider::{conclusive_view, race_outcome, ELEMENT_WAIT_SECS};
use crate::models::{FoundEmailData, Provider};
use fantoccini::Locator;
use vstd::prelude::*;

verus! {

/// The command that is outstanding while the session is open and the form
/// has not been submitted.
#[derive(Debug, Clone, Copy, PartialEq, Eq, Structural)]
pub enum FormStep {
    /// The recovery page is being loaded.
    Navigating,
    /// The address is being typed into the identifier field.
    Typing,
    /// The submit button is being clicked.
    Submitting,
}

/// Where a flow stands.
#[derive(Debug, Clone, Copy, PartialEq, Eq, Structural)]
pub enum FlowState {
    /// No session yet: the request to open one is outstanding.
    Init,
    /// The session is open and the form is being filled in.
    SessionOpen(FormStep),
    /// The form was submitted: the race over the indicators is outstanding.
    FormSubmitted,
    /// The account exists; the session is being closed.
    Exists,
    /// The account does not exist; the session is being closed.
    NotExists,
    /// Nothing was learned; the session is being closed.
    Inconclusive,
    /// A command failed; the session is being closed.
    Failed,
    /// The flow is over.
    Closed,
}

/// What the caller reports after performing an action.
#[derive(Debug)]
pub enum FlowEvent {
    /// A fresh browser session was opened.
    SessionOpened,
    /// No session could be opened.
    SessionFailed(AppError),
    /// The command was carried out.
    CommandSucceeded,
    /// The command failed or timed out.
    CommandFailed(AppError),
    /// The race over the indicators ended: with the index, in the provider's
    /// table, of the indicator that showed up first, or with `None` where
    /// none showed up in time.
    RaceFinished(Option<usize>),
    /// The session was closed, or closing it was tried and failed.
    SessionClosed,
}

/// What the flow asks the caller to do next.
#[derive(Debug)]
pub enum FlowAction {
    /// Load the page at `url` and wait until `ready` is present.
    Navigate { url: &'static str, ready: Locator<'static>, timeout_secs: u64 },
    /// Wait for `target` and type the address into it.
    TypeText { target: Locator<'static>, timeout_secs: u64 },
    /// Wait for `target` and click it.
    Click { target: Locator<'static>, timeout_secs: u64 },
    /// Watch for the provider's outcome indicators, all at once, and report
    /// the first to show up.
    RaceIndicators { timeout_secs: u64 },
    /// Close the session; a failure to do so is not an error of the flow.
    CloseSession,
    /// The flow is over with this result: a record where it settled whether
    /// the account exists, `None` where it did not, an error where it failed.
    Finish(Result<Option<FoundEmailData>, AppError>),
    /// The flow was over before: there is nothing to do.
    Nothing,
}

/// A flow in progress for one address at one provider.
#[derive(Debug)]
pub struct HeadlessFlow {
    /// The provider whose recovery flow is walked.
    pub provider: Provider,
    /// The address that is checked.
    pub email: String,
    /// Where the flow stands.
    pub state: FlowState,
    /// The failure that ended the flow early, kept until the session is closed.
    pub failure: Option<AppError>,
}

/// The message of the error that answers an event which the outstanding
/// action cannot have produced.
pub open spec fn out_of_turn_message() -> Seq<char> {
    "event does not answer the outstanding browser action"@
}

/// Whether `err` is the error that answers an out-of-turn event.
pub open spec fn is_out_of_turn_error(err: AppError) -> bool {
    err matches AppError::Task(text) && text@ == out_of_turn_message()
}

/// Whether the session is open and about to be closed.
pub open spec fn is_closing(state: FlowState) -> bool {
    state == FlowState::Exists || state == FlowState::NotExists || state
        == FlowState::Inconclusive || state == FlowState::Failed
}

/// Whether a browser session is open in this state.
pub open spec fn session_is_open(state: FlowState) -> bool {
    state != FlowState::Init && state != FlowState::Closed
}

/// The state that follows `state` on `event`.
///
/// Every event moves the flow on: where the event does not answer the
/// outstanding action, the flow fails, and closes the session if one is open.
pub open spec fn next_state(provider: Provider, state: FlowState, event: FlowEvent) -> FlowState {
    match state {
        FlowState::Init => match event {
            FlowEvent::SessionOpened => FlowState::SessionOpen(FormStep::Navigating),
            _ => FlowState::Closed,
        },
        FlowState::SessionOpen(step) => match event {
            FlowEvent::CommandSucceeded => match step {
                FormStep::Navigating => FlowState::SessionOpen(FormStep::Typing),
                FormStep::Typing => FlowState::SessionOpen(FormStep::Submitting),
                FormStep::Submitting => FlowState::FormSubmitted,
            },
            _ => FlowState::Failed,
        },
        FlowState::FormSubmitted => match event {
            FlowEvent::RaceFinished(winner) => match race_outcome(provider, winner) {
                Some(true) => FlowState::Exists,
                Some(false) => FlowState::NotExists,
                None => FlowState::Inconclusive,
            },
            _ => FlowState::Failed,
        },
        _ => FlowState::Closed,
    }
}

/// The failure that is kept after `event`: the error of a failed command, or
/// the out-of-turn error, from the moment the flow fails until it is closed.
pub open spec fn failure_fits(
    state: FlowState,
    event: FlowEvent,
    after: FlowState,
    failure: Option<AppError>,
) -> bool {
    if after == FlowState::Failed {
        match event {
            FlowEvent::CommandFailed(err) => failure == Some(err),
            _ => failure is Some && is_out_of_turn_error(failure->0),
        }
    } else {
        failure is None
    }
}

/// Whether `action` is what the flow asks for when `event` arrives in the
/// state of `before`.
pub open spec fn action_fits(before: HeadlessFlow, event: FlowEvent, action: FlowAction) -> bool {
    let provider = before.provider;
    match next_state(provider, before.state, event) {
        FlowState::Init => false,
        FlowState::SessionOpen(FormStep::Navigating) => {
            &&& action matches FlowAction::Navigate { url, ready, timeout_secs }
            &&& url@ == provider.recovery_url_spec()
            &&& ready == provider.email_input_spec()
            &&& timeout_secs == provider.page_load_secs_spec()
        },
        FlowState::SessionOpen(FormStep::Typing) => {
            &&& action matches FlowAction::TypeText { target, timeout_secs }
            &&& target == provider.email_input_spec()
            &&& timeout_secs == ELEMENT_WAIT_SECS
        },
        FlowState::SessionOpen(FormStep::Submitting) => {
            &&& action matches FlowAction::Click { target, timeout_secs }
            &&& target == provider.submit_button_spec()
            &&& timeout_secs == ELEMENT_WAIT_SECS
        },
        FlowState::FormSubmitted => {
            &&& action matches FlowAction::RaceIndicators { timeout_secs }
            &&& timeout_secs == ELEMENT_WAIT_SECS
        },
        FlowState::Exists | FlowState::NotExists | FlowState::Inconclusive | FlowState::Failed => {
            action is CloseSession
        },
        FlowState::Closed => match before.state {
            FlowState::Init => match event {
                FlowEvent::SessionFailed(err) => action == FlowAction::Finish(Err(err)),
                _ => action matches FlowAction::Finish(Err(err)) && is_out_of_turn_error(err),
            },
            FlowState::Exists => {
                &&& action matches FlowAction::Finish(Ok(Some(found)))
                &&& found@ == conclusive_view(provider, before.email@, true)
            },
            FlowState::NotExists => {
                &&& action matches FlowAction::Finish(Ok(Some(found)))
                &&& found@ == conclusive_view(provider, before.email@, false)
            },
            FlowState::Inconclusive => action == FlowAction::Finish(Ok(None)),
            FlowState::Failed => match before.failure {
                Some(err) => action == FlowAction::Finish(Err(err)),
                None => action matches FlowAction::Finish(Err(err)) && is_out_of_turn_error(err),
            },
            _ => action is Nothing,
        },
    }
}

impl HeadlessFlow {
    /// A flow is well formed when it keeps a failure exactly while it is in
    /// the failed state.
    pub open spec fn well_formed(&self) -> bool {
        self.failure is Some <==> self.state == FlowState::Failed
    }

    /// Starts a flow for `email` at `provider`. The caller opens a fresh
    /// browser session and reports how that went.
    pub fn new(provider: Provider, email: String) -> (flow: HeadlessFlow)
        ensures
            flow.provider == provider,
            flow.email == email,
            flow.state == FlowState::Init,
            flow.failure is None,
            flow.well_formed(),
    {
        HeadlessFlow { provider, email, state: FlowState::Init, failure: None }
    }

    /// Whether the flow is over.
    pub fn is_closed(&self) -> (b: bool)
        ensures
            b == (self.state == FlowState::Closed),
    {
        self.state == FlowState::Closed
    }

    /// Takes the report of what the last action led to and says what to do
    /// next.
    pub fn step(self, event: FlowEvent) -> (r: (HeadlessFlow, FlowAction))
        ensures
            r.0.provider == self.provider,
            r.0.email == self.email,
            r.0.state == next_state(self.provider, self.state, event),
            failure_fits(self.state, event, r.0.state, r.0.failure),
            r.0.well_formed(),
            action_fits(self, event, r.1),
    {
        let provider = self.provider;
        let email = self.email;
        let failure = self.failure;
        match self.state {
            FlowState::Init => match event {
                FlowEvent::SessionOpened => {
                    let action = FlowAction::Navigate {
                        url: provider.recovery_url(),
                        ready: provider.email_input(),
                        timeout_secs: provider.page_load_secs(),
                    };
                    (
                        HeadlessFlow {
                            provider,
                            email,
                            state: FlowState::SessionOpen(FormStep::Navigating),
                            failure: None,
                        },
                        action,
                    )
                },
                FlowEvent::SessionFailed(err) => (
                    HeadlessFlow { provider, email, state: FlowState::Closed, failure: None },
                    FlowAction::Finish(Err(err)),
                ),
                _ => (
                    HeadlessFlow { provider, email, state: FlowState::Closed, failure: None },
                    FlowAction::Finish(Err(out_of_turn_error())),
                ),
            },
            FlowState::SessionOpen(step) => match event {
                FlowEvent::CommandSucceeded => match step {
                    FormStep::Navigating => (
                        HeadlessFlow {
                            provider,
                            email,
                            state: FlowState::SessionOpen(FormStep::Typing),
                            failure: None,
                        },
                        FlowAction::TypeText {
                            target: provider.email_input(),
                            timeout_secs: ELEMENT_WAIT_SECS,
                        },
                    ),
                    FormStep::Typing => (
                        HeadlessFlow {
                            provider,
                            email,
                            state: FlowState::SessionOpen(FormStep::Submitting),
                            failure: None,
                        },
                        FlowAction::Click {
                            target: provider.submit_button(),
                            timeout_secs: ELEMENT_WAIT_SECS,
                        },
                    ),
                    FormStep::Submitting => (
                        HeadlessFlow {
                            provider,
                            email,
                            state: FlowState::FormSubmitted,
                            failure: None,
                        },
                        FlowAction::RaceIndicators { timeout_secs: ELEMENT_WAIT_SECS },
                    ),
                },
                FlowEvent::CommandFailed(err) => (
                    HeadlessFlow { provider, email, state: FlowState::Failed, failure: Some(err) },
                    FlowAction::CloseSession,
                ),
                _ => (
                    HeadlessFlow {
                        provider,
                        email,
                        state: FlowState::Failed,
                        failure: Some(out_of_turn_error()),
                    },
                    FlowAction::CloseSession,
                ),
            },
            FlowState::FormSubmitted => match event {
                FlowEvent::RaceFinished(winner) => {
                    let state = match provider.outcome_of_race(winner) {
                        Some(true) => FlowState::Exists,
                        Some(false) => FlowState::NotExists,
                        None => FlowState::Inconclusive,
                    };
                    (
                        HeadlessFlow { provider, email, state, failure: None },
                        FlowAction::CloseSession,
                    )
                },
                FlowEvent::CommandFailed(err) => (
                    HeadlessFlow { provider, email, state: FlowState::Failed, failure: Some(err) },
                    FlowAction::CloseSession,
                ),
                _ => (
                    HeadlessFlow {
                        provider,
                        email,
                        state: FlowState::Failed,
                        failure: Some(out_of_turn_error()),
                    },
                    FlowAction::CloseSession,
                ),
            },
            FlowState::Exists => {
                let found = provider.conclusive_result(email.as_str(), true);
                (
                    HeadlessFlow { provider, email, state: FlowState::Closed, failure: None },
                    FlowAction::Finish(Ok(Some(found))),
                )
            },
            FlowState::NotExists => {
                let found = provider.conclusive_result(email.as_str(), false);
                (
                    HeadlessFlow { provider, email, state: FlowState::Closed, failure: None },
                    FlowAction::Finish(Ok(Some(found))),
                )
            },
            FlowState::Inconclusive => (
                HeadlessFlow { provider, email, state: FlowState::Closed, failure: None },
                FlowAction::Finish(Ok(None)),
            ),
            FlowState::Failed => {
                let err = match failure {
                    Some(err) => err,
                    None => out_of_turn_error(),
                };
                (
                    HeadlessFlow { provider, email, state: FlowState::Closed, failure: None },
                    FlowAction::Finish(Err(err)),
                )
            },
            FlowState::Closed => (
                HeadlessFlow { provider, email, state: FlowState::Closed, failure: None },
                FlowAction::Nothing,
            ),
        }
    }
}

/// The state a flow is in after the events of `events` have arrived in turn.
pub open spec fn state_after(
    provider: Provider,
    state: FlowState,
    events: Seq<FlowEvent>,
) -> FlowState
    decreases events.len(),
{
    if events.len() == 0 {
        state
    } else {
        state_after(provider, next_state(provider, state, events[0]), events.drop_first())
    }
}

/// The number of events that a flow in `state` can take at most before it is
/// closed.
pub open spec fn steps_left(state: FlowState) -> nat {
    match state {
        FlowState::Init => 6,
        FlowState::SessionOpen(FormStep::Navigating) => 5,
        FlowState::SessionOpen(FormStep::Typing) => 4,
        FlowState::SessionOpen(FormStep::Submitting) => 3,
        FlowState::FormSubmitted => 2,
        FlowState::Exists | FlowState::NotExists | FlowState::Inconclusive | FlowState::Failed => 1,
        FlowState::Closed => 0,
    }
}

/// A closed flow stays closed, whatever is reported to it.
pub proof fn lemma_closed_is_terminal(provider: Provider, event: FlowEvent)
    ensures
        next_state(provider, FlowState::Closed, event) == FlowState::Closed,
{
}

/// Every event brings the flow nearer to its end.
pub proof fn lemma_every_event_advances(provider: Provider, state: FlowState, event: FlowEvent)
    requires
        state != FlowState::Closed,
    ensures
        steps_left(next_state(provider, state, event)) < steps_left(state),
{
}

/// A flow whose session is open ends only by way of a state in which the
/// session is being closed: no result is handed out over an open session.
pub proof fn lemma_session_closed_before_end(
    provider: Provider,
    state: FlowState,
    event: FlowEvent,
)
    requires
        session_is_open(state),
        next_state(provider, state, event) == FlowState::Closed,
    ensures
        is_closing(state),
{
}

/// Whatever is reported, a flow is closed once it has taken as many events
/// as its state leaves room for; a new flow is closed after six.
pub proof fn lemma_flow_always_closes(provider: Provider, state: FlowState, events: Seq<FlowEvent>)
    requires
        events.len() >= steps_left(state),
    ensures
        state_after(provider, state, events) == FlowState::Closed,
    decreases events.len(),
{
    if events.len() == 0 {
    } else {
        let next = next_state(provider, state, events[0]);
        if state != FlowState::Closed {
            lemma_every_event_advances(provider, state, events[0]);
        }
        lemma_flow_always_closes(provider, next, events.drop_first());
    }
}

/// The error that answers an event which the outstanding action cannot have
/// produced.
fn out_of_turn_error() -> (err: AppError)
    ensures
        is_out_of_turn_error(err),
{
    AppError::Task("event does not answer the outstanding browser action".to_owned())
}

} // verus!
