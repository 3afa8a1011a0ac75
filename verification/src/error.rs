//! The error values that the gateway hands to its caller.

use vstd::prelude::*;

verus! {

/// The failure that the authentication capability reports.
#[derive(Debug, PartialEq, Eq)]
pub struct AuthError {
    pub message: String,
}

/// What an [`AuthError`] is in contracts: its message.
pub struct AuthErrorView {
    pub message: Seq<char>,
}

impl View for AuthError {
    type V = AuthErrorView;

    open spec fn view(&self) -> AuthErrorView {
        AuthErrorView { message: self.message@ }
    }
}

/// Why a call to the remote API failed.
#[derive(Debug, PartialEq, Eq)]
pub enum ApiServerError {
    /// The request never produced a usable response: the transport failed, a
    /// local input was malformed, or a body could not be decoded.
    RequestError(String),
    /// The remote API answered with a failure; the message is the response
    /// body, or a fixed text for a status with a documented meaning.
    ApiError(String),
    /// Authentication failed; the capability's error, unchanged.
    AuthError(AuthError),
}

/// What an [`ApiServerError`] is in contracts.
pub enum ApiServerErrorView {
    RequestError(Seq<char>),
    ApiError(Seq<char>),
    AuthError(AuthErrorView),
}

impl View for ApiServerError {
    type V = ApiServerErrorView;

    open spec fn view(&self) -> ApiServerErrorView {
        match self {
            ApiServerError::RequestError(text) => ApiServerErrorView::RequestError(text@),
            ApiServerError::ApiError(text) => ApiServerErrorView::ApiError(text@),
            ApiServerError::AuthError(error) => ApiServerErrorView::AuthError(error@),
        }
    }
}

impl ApiServerErrorView {
    /// The human-readable text that the error carries.
    pub open spec fn message(self) -> Seq<char> {
        match self {
            ApiServerErrorView::RequestError(text) => text,
            ApiServerErrorView::ApiError(text) => text,
            ApiServerErrorView::AuthError(error) => error.message,
        }
    }
}

impl ApiServerError {
    /// The human-readable text that the error carries.
    pub fn message(&self) -> (text: String)
        ensures
            text@ == self@.message(),
    {
        match self {
            ApiServerError::RequestError(text) => text.clone(),
            ApiServerError::ApiError(text) => text.clone(),
            ApiServerError::AuthError(error) => error.message.clone(),
        }
    }
}

} // verus!
