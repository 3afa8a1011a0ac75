//! One call to the remote API as a state machine. The library decides what
//! happens next; its driver performs the action and reports the event.

use crate::auth::{
    answer_view, questions_left, resolve, resolve_step, AnswerView, AuthData, AuthProgress,
    AuthProgressView, AuthStep,
};
use crate::error::{ApiServerError, ApiServerErrorView, AuthError};
use crate::request::{authorize, authorized, Request, RequestView};
use vstd::prelude::*;
use vstd::string::*;

verus! {

/// The status of a response that succeeded.
pub const STATUS_OK: u16 = 200;

/// The status of a response without content.
pub const STATUS_NO_CONTENT: u16 = 204;

/// The status of a response to a request that the remote API refused as bad.
pub const STATUS_BAD_REQUEST: u16 = 400;

/// Where a call stands.
#[derive(Debug, PartialEq, Eq)]
pub enum Stage {
    /// The capability was asked `step`; `request` waits for a session.
    Authenticating { step: AuthStep, request: Request },
    /// The request is with the transport.
    Sending,
    /// The response succeeded and its body is being decoded.
    ReadingPayload,
    /// The response failed and its body is being read as text.
    ReadingError,
    /// The call has returned.
    Finished,
}

/// What a [`Stage`] is in contracts.
pub enum StageView {
    Authenticating { step: AuthStep, request: RequestView },
    Sending,
    ReadingPayload,
    ReadingError,
    Finished,
}

impl View for Stage {
    type V = StageView;

    open spec fn view(&self) -> StageView {
        match self {
            Stage::Authenticating { step, request } => StageView::Authenticating {
                step: *step,
                request: request@,
            },
            Stage::Sending => StageView::Sending,
            Stage::ReadingPayload => StageView::ReadingPayload,
            Stage::ReadingError => StageView::ReadingError,
            Stage::Finished => StageView::Finished,
        }
    }
}

/// A status other than success to which an operation gives a meaning of its
/// own: the call then fails with `message`, whatever the body holds.
#[derive(Debug, PartialEq, Eq)]
pub struct SpecialStatus {
    pub status: u16,
    pub message: String,
}

/// What a [`SpecialStatus`] is in contracts.
pub struct SpecialStatusView {
    pub status: u16,
    pub message: Seq<char>,
}

impl View for SpecialStatus {
    type V = SpecialStatusView;

    open spec fn view(&self) -> SpecialStatusView {
        SpecialStatusView { status: self.status, message: self.message@ }
    }
}

/// The view of a special status, where there is one.
pub open spec fn special_view(special: Option<SpecialStatus>) -> Option<SpecialStatusView> {
    match special {
        Some(special) => Some(special@),
        None => None,
    }
}

/// A call in progress, with the payload type `T` of its operation.
#[derive(Debug, PartialEq, Eq)]
pub struct Call<T> {
    pub stage: Stage,
    /// What the call returns on success where the operation reads no body;
    /// `None` where the body holds the payload.
    pub empty: Option<T>,
    /// The status with a documented meaning, where the operation has one.
    pub special: Option<SpecialStatus>,
}

/// What a [`Call`] is in contracts.
pub struct CallView<T> {
    pub stage: StageView,
    pub empty: Option<T>,
    pub special: Option<SpecialStatusView>,
}

impl<T> View for Call<T> {
    type V = CallView<T>;

    open spec fn view(&self) -> CallView<T> {
        CallView {
            stage: self.stage@,
            empty: self.empty,
            special: special_view(self.special),
        }
    }
}

/// What the driver reports after it has performed an action.
#[derive(Debug, PartialEq, Eq)]
pub enum Event<T> {
    /// The capability's answer to the question it was asked.
    Session(Result<AuthData, AuthError>),
    /// A response arrived with this status.
    Status(u16),
    /// The body was read and decoded.
    Payload(T),
    /// The body was read as text.
    Text(String),
    /// The transport failed, or the body could not be decoded.
    Failure(String),
}

/// What an [`Event`] is in contracts.
pub enum EventView<T> {
    Session(AnswerView),
    Status(u16),
    Payload(T),
    Text(Seq<char>),
    Failure(Seq<char>),
}

impl<T> View for Event<T> {
    type V = EventView<T>;

    open spec fn view(&self) -> EventView<T> {
        match self {
            Event::Session(answer) => EventView::Session(answer_view(*answer)),
            Event::Status(status) => EventView::Status(*status),
            Event::Payload(payload) => EventView::Payload(*payload),
            Event::Text(text) => EventView::Text(text@),
            Event::Failure(text) => EventView::Failure(text@),
        }
    }
}

/// What the library asks of its driver.
#[derive(Debug, PartialEq, Eq)]
pub enum Action<T> {
    /// Ask the capability for a cached session that is still valid.
    CheckSession,
    /// Ask the capability to refresh the session.
    Refresh,
    /// Read an identifier and a secret from the user and ask the capability
    /// to log in with them.
    Login,
    /// Send this request.
    Send(Request),
    /// Read the body of the response and decode it as the payload.
    ReadPayload,
    /// Read the body of the response as text.
    ReadText,
    /// Hand this result to the caller: the call is over.
    Return(Result<T, ApiServerError>),
}

/// What an [`Action`] is in contracts.
pub enum ActionView<T> {
    CheckSession,
    Refresh,
    Login,
    Send(RequestView),
    ReadPayload,
    ReadText,
    Return(Result<T, ApiServerErrorView>),
}

impl<T> View for Action<T> {
    type V = ActionView<T>;

    open spec fn view(&self) -> ActionView<T> {
        match self {
            Action::CheckSession => ActionView::CheckSession,
            Action::Refresh => ActionView::Refresh,
            Action::Login => ActionView::Login,
            Action::Send(request) => ActionView::Send(request@),
            Action::ReadPayload => ActionView::ReadPayload,
            Action::ReadText => ActionView::ReadText,
            Action::Return(Ok(payload)) => ActionView::Return(Ok(*payload)),
            Action::Return(Err(error)) => ActionView::Return(Err(error@)),
        }
    }
}

/// The action that puts `step` to the capability.
pub open spec fn ask<T>(step: AuthStep) -> ActionView<T> {
    match step {
        AuthStep::Session => ActionView::CheckSession,
        AuthStep::Refresh => ActionView::Refresh,
        AuthStep::Login => ActionView::Login,
    }
}

/// The message of the error that ends a call whose driver reports an event
/// that the stage of the call does not wait for.
pub const UNEXPECTED_EVENT: &'static str = "Unexpected event for the stage of the call";

/// The start of a call that sends `request` at once, without a session.
pub open spec fn open_call<T>(request: RequestView) -> (CallView<T>, ActionView<T>) {
    (CallView { stage: StageView::Sending, empty: None, special: None }, ActionView::Send(request))
}

/// The start of a call that needs a session: `request` waits while the
/// capability is asked for a cached session.
pub open spec fn authenticated_call<T>(
    request: RequestView,
    empty: Option<T>,
    special: Option<SpecialStatusView>,
) -> (CallView<T>, ActionView<T>) {
    (
        CallView {
            stage: StageView::Authenticating { step: AuthStep::Session, request },
            empty,
            special,
        },
        ActionView::CheckSession,
    )
}

/// A call that has returned.
pub open spec fn finished<T>() -> CallView<T> {
    CallView { stage: StageView::Finished, empty: None, special: None }
}

/// The end of a call with `result`.
pub open spec fn finish<T>(result: Result<T, ApiServerErrorView>) -> (CallView<T>, ActionView<T>) {
    (finished(), ActionView::Return(result))
}

/// What a call that has sent its request does with the status of the
/// response. Success is status 200 and nothing else: the call then returns
/// at once where the operation reads no body, and asks for the payload
/// otherwise. The status to which the operation gives its own meaning ends
/// the call with the fixed message. Any other status makes the call ask for
/// the body as text.
pub open spec fn on_status<T>(call: CallView<T>, status: u16) -> (CallView<T>, ActionView<T>) {
    if status == STATUS_OK {
        match call.empty {
            Some(value) => finish(Ok(value)),
            None => (CallView { stage: StageView::ReadingPayload, ..call }, ActionView::ReadPayload),
        }
    } else if call.special is Some && call.special->0.status == status {
        finish(Err(ApiServerErrorView::ApiError(call.special->0.message)))
    } else {
        (CallView { stage: StageView::ReadingError, ..call }, ActionView::ReadText)
    }
}

/// What a call that waits for a session does with the capability's answer.
pub open spec fn on_session<T>(
    call: CallView<T>,
    step: AuthStep,
    request: RequestView,
    answer: AnswerView,
) -> (CallView<T>, ActionView<T>) {
    match resolve(step, answer) {
        AuthProgressView::Next(next) => (
            CallView { stage: StageView::Authenticating { step: next, request }, ..call },
            ask(next),
        ),
        AuthProgressView::Done(Ok(session)) => (
            CallView { stage: StageView::Sending, ..call },
            ActionView::Send(authorized(request, session)),
        ),
        AuthProgressView::Done(Err(error)) => finish(Err(ApiServerErrorView::AuthError(error))),
    }
}

/// The transition of a call: its next state and the next action, for every
/// state and every event.
pub open spec fn step<T>(call: CallView<T>, event: EventView<T>) -> (CallView<T>, ActionView<T>) {
    match (call.stage, event) {
        (StageView::Finished, _) => finish(
            Err(ApiServerErrorView::RequestError(UNEXPECTED_EVENT@)),
        ),
        (_, EventView::Failure(text)) => finish(Err(ApiServerErrorView::RequestError(text))),
        (StageView::Authenticating { step, request }, EventView::Session(answer)) => on_session(
            call,
            step,
            request,
            answer,
        ),
        (StageView::Sending, EventView::Status(status)) => on_status(call, status),
        (StageView::ReadingPayload, EventView::Payload(payload)) => finish(Ok(payload)),
        (StageView::ReadingError, EventView::Text(text)) => finish(
            Err(ApiServerErrorView::ApiError(text)),
        ),
        _ => finish(Err(ApiServerErrorView::RequestError(UNEXPECTED_EVENT@))),
    }
}

/// How far a call has come: the count of the events that it can still take
/// before it returns falls as this number rises.
pub open spec fn progress(stage: StageView) -> nat {
    match stage {
        StageView::Authenticating { step, .. } => (3 - questions_left(step)) as nat,
        StageView::Sending => 3,
        StageView::ReadingPayload => 4,
        StageView::ReadingError => 4,
        StageView::Finished => 5,
    }
}

/// The course of a call over a sequence of events: the state it reaches and
/// the actions it asks for on the way, one for each event.
pub open spec fn run<T>(call: CallView<T>, events: Seq<EventView<T>>) -> (
    CallView<T>,
    Seq<ActionView<T>>,
)
    decreases events.len(),
{
    if events.len() == 0 {
        (call, Seq::empty())
    } else {
        let (next, action) = step(call, events[0]);
        let (last, actions) = run(next, events.drop_first());
        (last, seq![action] + actions)
    }
}

/// The action that puts `step` to the capability.
fn ask_for<T>(step: AuthStep) -> (action: Action<T>)
    ensures
        action@ == ask::<T>(step),
{
    match step {
        AuthStep::Session => Action::CheckSession,
        AuthStep::Refresh => Action::Refresh,
        AuthStep::Login => Action::Login,
    }
}

/// Ends a call with `result`.
pub(crate) fn finish_with<T>(result: Result<T, ApiServerError>) -> (next: (Call<T>, Action<T>))
    ensures
        next.0@ == finished::<T>(),
        next.1@ == (Action::Return(result))@,
{
    (Call { stage: Stage::Finished, empty: None, special: None }, Action::Return(result))
}

/// Ends a call whose driver reported an event that its stage does not wait
/// for.
fn refuse<T>() -> (next: (Call<T>, Action<T>))
    ensures
        (next.0@, next.1@) == finish::<T>(
            Err(ApiServerErrorView::RequestError(UNEXPECTED_EVENT@)),
        ),
{
    finish_with(Err(ApiServerError::RequestError(String::from_str(UNEXPECTED_EVENT))))
}

impl<T> Call<T> {
    /// Starts a call that sends `request` at once, without a session.
    pub fn open(request: Request) -> (start: (Call<T>, Action<T>))
        ensures
            (start.0@, start.1@) == open_call::<T>(request@),
    {
        (Call { stage: Stage::Sending, empty: None, special: None }, Action::Send(request))
    }

    /// Starts a call that needs a session for `request`. On success the call
    /// returns `empty` without reading the body where it is given, and the
    /// decoded body otherwise; `special` is the status to which the
    /// operation gives a meaning of its own.
    pub fn authenticated(
        request: Request,
        empty: Option<T>,
        special: Option<SpecialStatus>,
    ) -> (start: (Call<T>, Action<T>))
        ensures
            (start.0@, start.1@) == authenticated_call::<T>(request@, empty, special_view(special)),
    {
        (
            Call { stage: Stage::Authenticating { step: AuthStep::Session, request }, empty, special },
            Action::CheckSession,
        )
    }

    /// Whether the call has returned.
    pub fn is_finished(&self) -> (done: bool)
        ensures
            done == (self@.stage is Finished),
    {
        match self.stage {
            Stage::Finished => true,
            _ => false,
        }
    }

    /// Takes the call one step further: from its state and the event that its
    /// driver reports to its next state and the next action.
    pub fn advance(self, event: Event<T>) -> (next: (Call<T>, Action<T>))
        ensures
            (next.0@, next.1@) == step(self@, event@),
    {
        let Call { stage, empty, special } = self;
        match stage {
            Stage::Finished => refuse(),
            Stage::Authenticating { step, request } => match event {
                Event::Failure(text) => finish_with(Err(ApiServerError::RequestError(text))),
                Event::Session(answer) => match resolve_step(step, answer) {
                    AuthProgress::Next(next) => (
                        Call { stage: Stage::Authenticating { step: next, request }, empty, special },
                        ask_for(next),
                    ),
                    AuthProgress::Done(Ok(session)) => (
                        Call { stage: Stage::Sending, empty, special },
                        Action::Send(authorize(request, &session)),
                    ),
                    AuthProgress::Done(Err(error)) => finish_with(
                        Err(ApiServerError::AuthError(error)),
                    ),
                },
                _ => refuse(),
            },
            Stage::Sending => match event {
                Event::Failure(text) => finish_with(Err(ApiServerError::RequestError(text))),
                Event::Status(status) => {
                    if status == STATUS_OK {
                        match empty {
                            Some(value) => finish_with(Ok(value)),
                            None => (
                                Call { stage: Stage::ReadingPayload, empty: None, special },
                                Action::ReadPayload,
                            ),
                        }
                    } else {
                        match special {
                            Some(rule) => {
                                if rule.status == status {
                                    finish_with(Err(ApiServerError::ApiError(rule.message)))
                                } else {
                                    (
                                        Call {
                                            stage: Stage::ReadingError,
                                            empty,
                                            special: Some(rule),
                                        },
                                        Action::ReadText,
                                    )
                                }
                            },
                            None => (
                                Call { stage: Stage::ReadingError, empty, special: None },
                                Action::ReadText,
                            ),
                        }
                    }
                },
                _ => refuse(),
            },
            Stage::ReadingPayload => match event {
                Event::Failure(text) => finish_with(Err(ApiServerError::RequestError(text))),
                Event::Payload(payload) => finish_with(Ok(payload)),
                _ => refuse(),
            },
            Stage::ReadingError => match event {
                Event::Failure(text) => finish_with(Err(ApiServerError::RequestError(text))),
                Event::Text(text) => finish_with(Err(ApiServerError::ApiError(text))),
                _ => refuse(),
            },
        }
    }
}

} // verus!
