//! Client-side gateway to a remote project-management API: uploading firmware
//! images, listing and deleting projects, fetching analysis results and
//! managing the API key, all behind bearer-token authentication.
//!
//! The library is the transport-free core of the gateway. It decides and its
//! driver performs: an operation of [`HttpApiServer`] starts a [`Call`] and
//! names the first [`Action`]; the driver performs the action, reports what
//! happened as an [`Event`], and [`Call::advance`] names the next action,
//! until the action is [`Action::Return`].
//!
//! ```text
//! let (mut call, mut action) = server.delete(&id);
//! loop {
//!     let event = match action {
//!         Action::CheckSession => Event::Session(/* ask the capability */),
//!         Action::Send(request) => Event::Status(/* send, take the status */),
//!         Action::ReadText => Event::Text(/* read the body */),
//!         Action::Return(result) => return result,
//!         /* ... */
//!     };
//!     (call, action) = call.advance(event);
//! }
//! ```
//!
//! The module [`laws`] states what holds of every call, whatever the driver
//! reports.

pub mod auth;
pub mod call;
pub mod error;
pub mod http_server;
pub mod json;
pub mod laws;
pub mod project_id;
pub mod request;
pub mod route;

pub use crate::auth::{AuthData, AuthProgress, AuthStep};
pub use crate::call::{Action, Call, Event, SpecialStatus, Stage};
pub use crate::error::{ApiServerError, AuthError};
pub use crate::http_server::{HttpApiServer, SourceFile};
pub use crate::project_id::ProjectId;
pub use crate::request::{Method, Part, Request};
