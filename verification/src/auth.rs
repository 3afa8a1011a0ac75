//! The authentication resolver: a cached session first, then a refresh, then
//! an interactive login.

use crate::error::{AuthError, AuthErrorView};
use vstd::prelude::*;

verus! {

/// A session: the bearer token that authorises calls to the remote API.
#[derive(Debug, PartialEq, Eq)]
pub struct AuthData {
    pub token: String,
}

/// What an [`AuthData`] is in contracts: its token.
pub struct AuthDataView {
    pub token: Seq<char>,
}

impl View for AuthData {
    type V = AuthDataView;

    open spec fn view(&self) -> AuthDataView {
        AuthDataView { token: self.token@ }
    }
}

/// One question to the authentication capability.
#[derive(Clone, Copy, Debug, PartialEq, Eq, Structural)]
pub enum AuthStep {
    /// Is there a cached session that is still valid?
    Session,
    /// Exchange the stored long-lived credential for a new session.
    Refresh,
    /// Read an identifier and a secret from the user and log in with them.
    Login,
}

/// What the capability answered to one question, in contracts.
pub type AnswerView = Result<AuthDataView, AuthErrorView>;

/// The view of the capability's answer.
pub open spec fn answer_view(answer: Result<AuthData, AuthError>) -> AnswerView {
    match answer {
        Ok(session) => Ok(session@),
        Err(error) => Err(error@),
    }
}

/// Where the resolution stands after one answer.
#[derive(Debug, PartialEq, Eq)]
pub enum AuthProgress {
    /// The resolution goes on with this question.
    Next(AuthStep),
    /// The resolution is over, with this session or this error.
    Done(Result<AuthData, AuthError>),
}

/// What an [`AuthProgress`] is in contracts.
pub enum AuthProgressView {
    Next(AuthStep),
    Done(AnswerView),
}

impl View for AuthProgress {
    type V = AuthProgressView;

    open spec fn view(&self) -> AuthProgressView {
        match self {
            AuthProgress::Next(step) => AuthProgressView::Next(*step),
            AuthProgress::Done(answer) => AuthProgressView::Done(answer_view(*answer)),
        }
    }
}

/// The question that follows `step` when its answer was a failure, if any.
pub open spec fn fallback(step: AuthStep) -> Option<AuthStep> {
    match step {
        AuthStep::Session => Some(AuthStep::Refresh),
        AuthStep::Refresh => Some(AuthStep::Login),
        AuthStep::Login => None,
    }
}

/// The resolution rule. A session ends the resolution at once, whichever
/// question it answers. A failure moves on to the next question without a
/// trace of its cause, and ends the resolution only when it answers the login.
pub open spec fn resolve(step: AuthStep, answer: AnswerView) -> AuthProgressView {
    match answer {
        Ok(session) => AuthProgressView::Done(Ok(session)),
        Err(error) => match fallback(step) {
            Some(next) => AuthProgressView::Next(next),
            None => AuthProgressView::Done(Err(error)),
        },
    }
}

/// Applies the resolution rule to the answer that the capability gave to
/// `step`.
pub fn resolve_step(step: AuthStep, answer: Result<AuthData, AuthError>) -> (progress: AuthProgress)
    ensures
        progress@ == resolve(step, answer_view(answer)),
{
    match answer {
        Ok(session) => AuthProgress::Done(Ok(session)),
        Err(error) => match step {
            AuthStep::Session => AuthProgress::Next(AuthStep::Refresh),
            AuthStep::Refresh => AuthProgress::Next(AuthStep::Login),
            AuthStep::Login => AuthProgress::Done(Err(error)),
        },
    }
}

/// How many questions the resolver may still ask, `step` included.
pub open spec fn questions_left(step: AuthStep) -> nat {
    match step {
        AuthStep::Session => 3,
        AuthStep::Refresh => 2,
        AuthStep::Login => 1,
    }
}

/// A whole resolution that starts with `step`: the questions that the
/// resolver asks, in their order, and the result it ends with, where
/// `answers` gives the capability's answer to each question.
pub open spec fn resolution(answers: spec_fn(AuthStep) -> AnswerView, step: AuthStep) -> (
    Seq<AuthStep>,
    AnswerView,
)
    decreases questions_left(step),
{
    match resolve(step, answers(step)) {
        AuthProgressView::Done(result) => (seq![step], result),
        AuthProgressView::Next(next) => {
            let (asked, result) = resolution(answers, next);
            (seq![step] + asked, result)
        },
    }
}

} // verus!
