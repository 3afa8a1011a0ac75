//! Outbound requests as plain values: what the transport is asked to send.

use crate::auth::{AuthData, AuthDataView};
use vstd::prelude::*;
use vstd::string::*;

verus! {

/// The HTTP methods that the gateway uses.
#[derive(Clone, Copy, Debug, PartialEq, Eq, Structural)]
pub enum Method {
    Get,
    Post,
    Delete,
}

/// One part of a multipart form.
#[derive(Debug, PartialEq, Eq)]
pub enum Part {
    /// A text field.
    Text { name: String, value: String },
    /// A binary file, sent under the file name `file_name`.
    File { name: String, file_name: String, bytes: Vec<u8> },
}

/// What a [`Part`] is in contracts.
pub enum PartView {
    Text { name: Seq<char>, value: Seq<char> },
    File { name: Seq<char>, file_name: Seq<char>, bytes: Seq<u8> },
}

impl View for Part {
    type V = PartView;

    open spec fn view(&self) -> PartView {
        match self {
            Part::Text { name, value } => PartView::Text { name: name@, value: value@ },
            Part::File { name, file_name, bytes } => PartView::File {
                name: name@,
                file_name: file_name@,
                bytes: bytes@,
            },
        }
    }
}

/// The views of the parts of a form, in their order.
pub open spec fn parts_view(parts: Seq<Part>) -> Seq<PartView> {
    parts.map_values(|part: Part| part@)
}

/// A request, ready for the transport.
#[derive(Debug, PartialEq, Eq)]
pub struct Request {
    pub method: Method,
    pub url: String,
    /// The value of the `User-Agent` header.
    pub user_agent: String,
    /// The value of the `Authorization` header, where the request has one.
    pub authorization: Option<String>,
    /// The parts of the multipart form that is the body, where the request
    /// has one.
    pub form: Option<Vec<Part>>,
}

/// What a [`Request`] is in contracts.
pub struct RequestView {
    pub method: Method,
    pub url: Seq<char>,
    pub user_agent: Seq<char>,
    pub authorization: Option<Seq<char>>,
    pub form: Option<Seq<PartView>>,
}

impl View for Request {
    type V = RequestView;

    open spec fn view(&self) -> RequestView {
        RequestView {
            method: self.method,
            url: self.url@,
            user_agent: self.user_agent@,
            authorization: match self.authorization {
                Some(value) => Some(value@),
                None => None,
            },
            form: match self.form {
                Some(parts) => Some(parts_view(parts@)),
                None => None,
            },
        }
    }
}

impl Request {
    /// The request with `parts` as its multipart form.
    pub fn with_form(self, parts: Vec<Part>) -> (request: Request)
        ensures
            request@ == (RequestView { form: Some(parts_view(parts@)), ..self@ }),
    {
        Request {
            method: self.method,
            url: self.url,
            user_agent: self.user_agent,
            authorization: self.authorization,
            form: Some(parts),
        }
    }
}

/// The URL scheme that the transport-security flag selects.
pub open spec fn protocol(tls: bool) -> Seq<char> {
    if tls {
        "https"@
    } else {
        "http"@
    }
}

/// Returns `"https"` when transport security is on and `"http"` when it is off.
pub fn get_protocol(tls: bool) -> (scheme: &'static str)
    ensures
        scheme@ == protocol(tls),
{
    if tls {
        "https"
    } else {
        "http"
    }
}

/// The URL of `path` on the endpoint: scheme, `://`, host, `:`, port, path.
pub open spec fn url_of(tls: bool, host: Seq<char>, port: Seq<char>, path: Seq<char>) -> Seq<char> {
    protocol(tls) + "://"@ + host + ":"@ + port + path
}

/// Composes the URL of `path` on the endpoint.
pub fn compose_url(tls: bool, host: &str, port: &str, path: &str) -> (url: String)
    ensures
        url@ == url_of(tls, host@, port@, path@),
{
    let mut url = String::from_str(get_protocol(tls));
    url.append("://");
    url.append(host);
    url.append(":");
    url.append(port);
    url.append(path);
    url
}

/// The name under which the client presents itself.
pub const CLI_NAME: &'static str = "ExeinCLI";

/// The version under which the client presents itself.
pub const CLI_VERSION: &'static str = "0.1.0";

/// The client identifier: name, `/`, version.
pub open spec fn user_agent() -> Seq<char> {
    CLI_NAME@ + "/"@ + CLI_VERSION@
}

/// The value of the `User-Agent` header of every request.
pub fn cli_user_agent() -> (agent: String)
    ensures
        agent@ == user_agent(),
{
    let mut agent = String::from_str(CLI_NAME);
    agent.append("/");
    agent.append(CLI_VERSION);
    agent
}

/// The value of the `Authorization` header for a bearer token.
pub open spec fn bearer(token: Seq<char>) -> Seq<char> {
    "Bearer "@ + token
}

/// The request with the session's token as its bearer authorisation.
pub open spec fn authorized(request: RequestView, session: AuthDataView) -> RequestView {
    RequestView { authorization: Some(bearer(session.token)), ..request }
}

/// Attaches the session's token to the request as its bearer authorisation.
pub fn authorize(request: Request, session: &AuthData) -> (signed: Request)
    ensures
        signed@ == authorized(request@, session@),
{
    let mut value = String::from_str("Bearer ");
    value.append(session.token.as_str());
    Request {
        method: request.method,
        url: request.url,
        user_agent: request.user_agent,
        authorization: Some(value),
        form: request.form,
    }
}

} // verus!
