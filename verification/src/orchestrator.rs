//! The order of a run: which step follows which, and what is done about a
//! failure.
//!
//! A run goes from reading the arguments to resolving the settings,
//! authenticating, submitting the request and telling the user. The caller
//! does the work that reaches outside the program and reports how it went as
//! an [`Event`]; [`step`] answers with the next [`State`] and the next
//! [`Action`].

use vstd::prelude::*;
use crate::arguments::{get_uri, selected_uri};
use crate::failure::{Failure, FailureKind, FailureView};
use crate::locator::{classification, classify, LocatorView, TorrentLocator};
use crate::notification::{
    failure_notification,
    success_notification,
    NotificationView,
    OutcomeNotification,
};
use crate::request::{
    lemma_request_for_one,
    locator_views,
    single_request,
    RequestView,
    SubmissionRequest,
};
use crate::settings::{Credentials, CredentialsView, ServiceConfig, ServiceConfigView};

verus! {

/// How far a run has come.
#[derive(Debug, Clone, PartialEq, Eq)]
pub enum State {
    /// Nothing has happened yet.
    Start,
    /// The argument was read and classified; the settings are being resolved.
    UriRead { locator: TorrentLocator },
    /// The settings are there; the daemon is being asked for a session.
    ConfigResolved { locator: TorrentLocator },
    /// The session is open; the request is on its way.
    Authenticated,
    /// The daemon took the request; the user is being told.
    Submitted,
    /// The user was told of the success. The run is over.
    Done,
    /// The run failed with `failure`.
    ErrorState { failure: Failure },
}

/// What the caller reports back.
#[derive(Debug, PartialEq, Eq)]
pub enum Event {
    /// The program's arguments, its own name first.
    Arguments(Vec<String>),
    /// The settings, or why there are none.
    ConfigOutcome(Result<ServiceConfig, Failure>),
    /// Whether the daemon opened a session; if not, the text of the refusal.
    AuthOutcome(Result<(), String>),
    /// Whether the daemon took the request; if not, the text of the refusal.
    SubmitOutcome(Result<(), String>),
    /// Whether the notification was shown; if not, why.
    NotifyOutcome(Result<(), String>),
}

/// What the caller has to do next.
#[derive(Debug)]
pub enum Action {
    /// Find and read the settings.
    ResolveConfig,
    /// Open a session at the daemon.
    Authenticate { host_address: String, credentials: Credentials },
    /// Send the request over the session.
    Submit { request: SubmissionRequest },
    /// Show the notification.
    Notify { notification: OutcomeNotification },
    /// End the process with this outcome.
    Exit { outcome: Result<(), Failure> },
}

/// The answer to an event: where the run stands now, and what to do.
#[derive(Debug)]
pub struct Step {
    pub state: State,
    pub action: Action,
}

/// The mathematical value of a [`State`].
pub enum StateView {
    Start,
    UriRead { locator: LocatorView },
    ConfigResolved { locator: LocatorView },
    Authenticated,
    Submitted,
    Done,
    ErrorState { failure: FailureView },
}

/// The mathematical value of an [`Event`].
pub enum EventView {
    Arguments(Seq<Seq<char>>),
    ConfigOutcome(Result<ServiceConfigView, FailureView>),
    AuthOutcome(Result<(), Seq<char>>),
    SubmitOutcome(Result<(), Seq<char>>),
    NotifyOutcome(Result<(), Seq<char>>),
}

/// The mathematical value of an [`Action`].
pub enum ActionView {
    ResolveConfig,
    Authenticate { host_address: Seq<char>, credentials: CredentialsView },
    Submit { request: RequestView },
    Notify { notification: NotificationView },
    Exit { outcome: Result<(), FailureView> },
}

/// The mathematical value of a [`Step`].
pub struct StepView {
    pub state: StateView,
    pub action: ActionView,
}

/// The outcome of a step that hands nothing back, as a mathematical value.
pub open spec fn unit_outcome(outcome: Result<(), String>) -> Result<(), Seq<char>> {
    match outcome {
        Ok(done) => Ok(done),
        Err(message) => Err(message@),
    }
}

/// The outcome of a run, as a mathematical value.
pub open spec fn run_outcome(outcome: Result<(), Failure>) -> Result<(), FailureView> {
    match outcome {
        Ok(done) => Ok(done),
        Err(failure) => Err(failure@),
    }
}

impl View for State {
    type V = StateView;

    open spec fn view(&self) -> StateView {
        match self {
            State::Start => StateView::Start,
            State::UriRead { locator } => StateView::UriRead { locator: locator@ },
            State::ConfigResolved { locator } => StateView::ConfigResolved { locator: locator@ },
            State::Authenticated => StateView::Authenticated,
            State::Submitted => StateView::Submitted,
            State::Done => StateView::Done,
            State::ErrorState { failure } => StateView::ErrorState { failure: failure@ },
        }
    }
}

impl View for Event {
    type V = EventView;

    open spec fn view(&self) -> EventView {
        match self {
            Event::Arguments(args) => EventView::Arguments(args.deep_view()),
            Event::ConfigOutcome(Ok(config)) => EventView::ConfigOutcome(Ok(config@)),
            Event::ConfigOutcome(Err(failure)) => EventView::ConfigOutcome(Err(failure@)),
            Event::AuthOutcome(outcome) => EventView::AuthOutcome(unit_outcome(*outcome)),
            Event::SubmitOutcome(outcome) => EventView::SubmitOutcome(unit_outcome(*outcome)),
            Event::NotifyOutcome(outcome) => EventView::NotifyOutcome(unit_outcome(*outcome)),
        }
    }
}

impl View for Action {
    type V = ActionView;

    open spec fn view(&self) -> ActionView {
        match self {
            Action::ResolveConfig => ActionView::ResolveConfig,
            Action::Authenticate { host_address, credentials } => ActionView::Authenticate {
                host_address: host_address@,
                credentials: credentials@,
            },
            Action::Submit { request } => ActionView::Submit { request: request@ },
            Action::Notify { notification } => ActionView::Notify { notification: notification@ },
            Action::Exit { outcome } => ActionView::Exit { outcome: run_outcome(*outcome) },
        }
    }
}

impl View for Step {
    type V = StepView;

    open spec fn view(&self) -> StepView {
        StepView { state: self.state@, action: self.action@ }
    }
}

/// A run fails with `failure`: the user is told once, under the title
/// `Error`, with the failure's own text.
pub open spec fn failed(failure: FailureView) -> StepView {
    StepView {
        state: StateView::ErrorState { failure },
        action: ActionView::Notify { notification: failure_notification(failure) },
    }
}

/// A failure of the step `kind` that the caller reported as `message`.
pub open spec fn reported(kind: FailureKind, message: Seq<char>) -> FailureView {
    FailureView { kind, message }
}

/// A run ends in failure with nothing more to show: the process ends with the
/// failure as its outcome.
pub open spec fn ended(failure: FailureView) -> StepView {
    StepView {
        state: StateView::ErrorState { failure },
        action: ActionView::Exit { outcome: Err(failure) },
    }
}

/// The step that `event` causes in `state`, if the event belongs there.
///
/// A failure of any step but the notification leads to the error state and
/// to one notification. A notification that cannot be shown only ends the
/// run: there is nowhere left to report it.
pub open spec fn next(state: StateView, event: EventView) -> Option<StepView> {
    match (state, event) {
        (StateView::Start, EventView::Arguments(args)) => Some(
            match selected_uri(args) {
                Ok(uri) => StepView {
                    state: StateView::UriRead { locator: classification(uri) },
                    action: ActionView::ResolveConfig,
                },
                Err(failure) => failed(failure),
            },
        ),
        (StateView::UriRead { locator }, EventView::ConfigOutcome(outcome)) => Some(
            match outcome {
                Ok(config) => StepView {
                    state: StateView::ConfigResolved { locator },
                    action: ActionView::Authenticate {
                        host_address: config.host_address,
                        credentials: config.credentials,
                    },
                },
                Err(failure) => failed(failure),
            },
        ),
        (StateView::ConfigResolved { locator }, EventView::AuthOutcome(outcome)) => Some(
            match outcome {
                Ok(_) => StepView {
                    state: StateView::Authenticated,
                    action: ActionView::Submit { request: single_request(locator) },
                },
                Err(message) => failed(reported(FailureKind::Auth, message)),
            },
        ),
        (StateView::Authenticated, EventView::SubmitOutcome(outcome)) => Some(
            match outcome {
                Ok(_) => StepView {
                    state: StateView::Submitted,
                    action: ActionView::Notify { notification: success_notification() },
                },
                Err(message) => failed(reported(FailureKind::Submission, message)),
            },
        ),
        (StateView::Submitted, EventView::NotifyOutcome(outcome)) => Some(
            match outcome {
                Ok(done) => StepView {
                    state: StateView::Done,
                    action: ActionView::Exit { outcome: Ok(done) },
                },
                Err(message) => ended(reported(FailureKind::Notify, message)),
            },
        ),
        (StateView::ErrorState { failure }, EventView::NotifyOutcome(outcome)) => Some(
            match outcome {
                Ok(_) => ended(failure),
                Err(message) => ended(reported(FailureKind::Notify, message)),
            },
        ),
        _ => None,
    }
}

/// The process status that goes with the outcome of a run: zero for success,
/// one for any failure.
pub open spec fn exit_status_of(outcome: Result<(), FailureView>) -> int {
    match outcome {
        Ok(_) => 0,
        Err(_) => 1,
    }
}

/// Returns the process status that goes with the outcome of a run.
pub fn exit_status(outcome: &Result<(), Failure>) -> (status: u8)
    ensures
        status == exit_status_of(run_outcome(*outcome)),
{
    match outcome {
        Ok(_) => 0,
        Err(_) => 1,
    }
}

/// The step into the error state that shows `failure` to the user.
fn fail(failure: Failure) -> (step: Step)
    ensures
        step@ == failed(failure@),
{
    let notification = OutcomeNotification::failure(&failure);
    Step { state: State::ErrorState { failure }, action: Action::Notify { notification } }
}

/// The step that ends a failed run.
fn end(failure: Failure) -> (step: Step)
    ensures
        step@ == ended(failure@),
{
    let outcome = Failure { kind: failure.kind, message: failure.message.clone() };
    Step { state: State::ErrorState { failure }, action: Action::Exit { outcome: Err(outcome) } }
}

/// Takes the step that `event` causes in `state`. An event that does not
/// belong in the state causes none.
pub fn step(state: State, event: Event) -> (taken: Option<Step>)
    ensures
        match taken {
            Some(step) => next(state@, event@) == Some(step@),
            None => next(state@, event@) is None,
        },
{
    match state {
        State::Start => match event {
            Event::Arguments(args) => match get_uri(&args) {
                Ok(uri) => Some(
                    Step {
                        state: State::UriRead { locator: classify(uri.as_str()) },
                        action: Action::ResolveConfig,
                    },
                ),
                Err(failure) => Some(fail(failure)),
            },
            _ => None,
        },
        State::UriRead { locator } => match event {
            Event::ConfigOutcome(Ok(config)) => Some(
                Step {
                    state: State::ConfigResolved { locator },
                    action: Action::Authenticate {
                        host_address: config.host_address,
                        credentials: config.credentials,
                    },
                },
            ),
            Event::ConfigOutcome(Err(failure)) => Some(fail(failure)),
            _ => None,
        },
        State::ConfigResolved { locator } => match event {
            Event::AuthOutcome(Ok(_)) => {
                let mut locators: Vec<TorrentLocator> = Vec::new();
                locators.push(locator);
                proof {
                    assert(locator_views(locators@) =~= seq![locator@]);
                    lemma_request_for_one(locator@);
                }
                match SubmissionRequest::new(&locators) {
                    Ok(request) => Some(
                        Step { state: State::Authenticated, action: Action::Submit { request } },
                    ),
                    Err(failure) => Some(fail(failure)),
                }
            },
            Event::AuthOutcome(Err(message)) => Some(
                fail(Failure { kind: FailureKind::Auth, message }),
            ),
            _ => None,
        },
        State::Authenticated => match event {
            Event::SubmitOutcome(Ok(_)) => Some(
                Step {
                    state: State::Submitted,
                    action: Action::Notify { notification: OutcomeNotification::success() },
                },
            ),
            Event::SubmitOutcome(Err(message)) => Some(
                fail(Failure { kind: FailureKind::Submission, message }),
            ),
            _ => None,
        },
        State::Submitted => match event {
            Event::NotifyOutcome(Ok(done)) => Some(
                Step { state: State::Done, action: Action::Exit { outcome: Ok(done) } },
            ),
            Event::NotifyOutcome(Err(message)) => Some(
                end(Failure { kind: FailureKind::Notify, message }),
            ),
            _ => None,
        },
        State::Done => None,
        State::ErrorState { failure } => match event {
            Event::NotifyOutcome(Ok(_)) => Some(end(failure)),
            Event::NotifyOutcome(Err(message)) => Some(
                end(Failure { kind: FailureKind::Notify, message }),
            ),
            _ => None,
        },
    }
}

} // verus!
