//! The gateway: the endpoint it talks to and the operations it offers.

use crate::auth::{answer_view, resolve, resolve_step, AuthData, AuthProgress, AuthStep};
use crate::call::{
    authenticated_call, finish, finish_with, open_call, Action, ActionView, Call, CallView,
    SpecialStatus, SpecialStatusView, STATUS_BAD_REQUEST, STATUS_NO_CONTENT,
};
use crate::error::{ApiServerError, ApiServerErrorView, AuthError};
use crate::project_id::ProjectId;
use crate::request::{
    cli_user_agent, compose_url, parts_view, url_of, user_agent, Method, Part, PartView, Request,
    RequestView,
};
use crate::route::{
    analysis_path, build_analysis_path, build_overview_path, build_project_path, overview_path,
    project_path, APIKEY_ROUTE_V1, PROJECT_ROUTE_V1, UPDATES_ROUTE,
};
use vstd::prelude::*;
use vstd::string::*;

verus! {

/// The message of the error for a second API key.
pub const APIKEY_PRESENT: &'static str = "API key already present!";

/// The message of the error for a missing API key.
pub const APIKEY_MISSING: &'static str = "No API key found!";

/// The gateway to the remote API. It holds the endpoint, which never changes,
/// and owns the authentication capability on behalf of its driver.
#[derive(Debug)]
pub struct HttpApiServer<U> {
    host: String,
    port: String,
    tls: bool,
    auth_service: U,
}

/// What an [`HttpApiServer`] is in contracts.
pub struct HttpApiServerView<U> {
    pub host: Seq<char>,
    pub port: Seq<char>,
    pub tls: bool,
    pub auth_service: U,
}

impl<U> View for HttpApiServer<U> {
    type V = HttpApiServerView<U>;

    closed spec fn view(&self) -> HttpApiServerView<U> {
        HttpApiServerView {
            host: self.host@,
            port: self.port@,
            tls: self.tls,
            auth_service: self.auth_service,
        }
    }
}

/// What the driver found at the path of the file to upload.
#[derive(Debug, PartialEq, Eq)]
pub struct SourceFile {
    /// Whether anything exists at the path.
    pub exists: bool,
    /// Whether the path names a directory.
    pub is_dir: bool,
    /// The bytes of the file, or why they could not be read.
    pub contents: Result<Vec<u8>, String>,
}

/// What a [`SourceFile`] is in contracts.
pub struct SourceFileView {
    pub exists: bool,
    pub is_dir: bool,
    pub contents: Result<Seq<u8>, Seq<char>>,
}

impl View for SourceFile {
    type V = SourceFileView;

    open spec fn view(&self) -> SourceFileView {
        SourceFileView {
            exists: self.exists,
            is_dir: self.is_dir,
            contents: match self.contents {
                Ok(bytes) => Ok(bytes@),
                Err(text) => Err(text@),
            },
        }
    }
}

/// The text fields of an upload.
pub struct UploadView {
    pub fw_type: Seq<char>,
    pub fw_subtype: Seq<char>,
    pub name: Seq<char>,
    pub description: Option<Seq<char>>,
}

/// The view of an upload's text fields.
pub open spec fn upload_view(
    fw_type: &str,
    fw_subtype: &str,
    name: &str,
    description: Option<&str>,
) -> UploadView {
    UploadView {
        fw_type: fw_type@,
        fw_subtype: fw_subtype@,
        name: name@,
        description: match description {
            Some(text) => Some(text@),
            None => None,
        },
    }
}

/// The view of a file name, where there is one.
pub open spec fn name_view(file_name: Option<String>) -> Option<Seq<char>> {
    match file_name {
        Some(name) => Some(name@),
        None => None,
    }
}

/// The message of the error for an upload whose path names no file.
pub open spec fn file_not_found(path: Seq<char>) -> Seq<char> {
    "File "@ + path + " not found"@
}

/// The message of the error for an upload whose path has no final component.
pub open spec fn bad_file_name(path: Seq<char>) -> Seq<char> {
    "Problem with image filename: "@ + path
}

/// The multipart form of an upload: the fields `name`, `type` and `subtype`,
/// the part `file` under the file's own name, and the field `description`
/// where there is one.
pub open spec fn upload_form(upload: UploadView, file_name: Seq<char>, bytes: Seq<u8>) -> Seq<
    PartView,
> {
    let fixed = seq![
        PartView::Text { name: "name"@, value: upload.name },
        PartView::Text { name: "type"@, value: upload.fw_type },
        PartView::Text { name: "subtype"@, value: upload.fw_subtype },
        PartView::File { name: "file"@, file_name, bytes },
    ];
    match upload.description {
        Some(text) => fixed.push(PartView::Text { name: "description"@, value: text }),
        None => fixed,
    }
}

/// The operations, each as the call it starts: its method, its path, whether
/// it needs a session, what it returns on success, and the status to which it
/// gives a meaning of its own.
impl<U> HttpApiServerView<U> {
    /// The plain request for `path`: its URL on the endpoint and the client
    /// identifier, with no authorisation and no body.
    pub open spec fn request(self, path: Seq<char>, method: Method) -> RequestView {
        RequestView {
            method,
            url: url_of(self.tls, self.host, self.port, path),
            user_agent: user_agent(),
            authorization: None,
            form: None,
        }
    }

    /// The version check: a `GET` of the updates path, without a session.
    pub open spec fn updates_check<T>(self) -> (CallView<T>, ActionView<T>) {
        open_call(self.request(UPDATES_ROUTE@, Method::Get))
    }

    /// The upload of a new project: a `POST` of the form to the project
    /// collection. A path that names nothing, or a directory, ends the call
    /// at once; so does a path without a final component, and a file that
    /// could not be read.
    pub open spec fn create(
        self,
        path: Seq<char>,
        file: SourceFileView,
        file_name: Option<Seq<char>>,
        upload: UploadView,
    ) -> (CallView<ProjectId>, ActionView<ProjectId>) {
        if !file.exists || file.is_dir {
            finish(Err(ApiServerErrorView::RequestError(file_not_found(path))))
        } else {
            match (file_name, file.contents) {
                (None, _) => finish(Err(ApiServerErrorView::RequestError(bad_file_name(path)))),
                (Some(_), Err(text)) => finish(Err(ApiServerErrorView::RequestError(text))),
                (Some(file_name), Ok(bytes)) => authenticated_call(
                    RequestView {
                        form: Some(upload_form(upload, file_name, bytes)),
                        ..self.request(PROJECT_ROUTE_V1@, Method::Post)
                    },
                    None,
                    None,
                ),
            }
        }
    }

    /// The overview of a project: a `GET` of the project's overview path.
    pub open spec fn overview(self, id: ProjectId) -> (
        CallView<serde_json::Value>,
        ActionView<serde_json::Value>,
    ) {
        authenticated_call(self.request(overview_path(id), Method::Get), None, None)
    }

    /// One analysis of a project: a `GET` of that analysis path.
    pub open spec fn analysis<T>(self, id: ProjectId, analysis: Seq<char>) -> (
        CallView<T>,
        ActionView<T>,
    ) {
        authenticated_call(self.request(analysis_path(id, analysis), Method::Get), None, None)
    }

    /// The deletion of a project: a `DELETE` of the project's path. Success
    /// needs no body.
    pub open spec fn delete(self, id: ProjectId) -> (CallView<()>, ActionView<()>) {
        authenticated_call(self.request(project_path(id), Method::Delete), Some(()), None)
    }

    /// The list of the projects: a `GET` of the project collection.
    pub open spec fn list_projects<T>(self) -> (CallView<T>, ActionView<T>) {
        authenticated_call(self.request(PROJECT_ROUTE_V1@, Method::Get), None, None)
    }

    /// The creation of the API key: a `POST` to the API key's root. The status
    /// 400 means that there is a key already.
    pub open spec fn apikey_create<T>(self) -> (CallView<T>, ActionView<T>) {
        authenticated_call(
            self.request(APIKEY_ROUTE_V1@, Method::Post),
            None,
            Some(SpecialStatusView { status: STATUS_BAD_REQUEST, message: APIKEY_PRESENT@ }),
        )
    }

    /// The API key: a `GET` of the API key's root. The status 204 means that
    /// there is no key.
    pub open spec fn apikey_list<T>(self) -> (CallView<T>, ActionView<T>) {
        authenticated_call(
            self.request(APIKEY_ROUTE_V1@, Method::Get),
            None,
            Some(SpecialStatusView { status: STATUS_NO_CONTENT, message: APIKEY_MISSING@ }),
        )
    }

    /// The deletion of the API key: a `DELETE` of the API key's root. Success
    /// needs no body.
    pub open spec fn apikey_delete(self) -> (CallView<()>, ActionView<()>) {
        authenticated_call(self.request(APIKEY_ROUTE_V1@, Method::Delete), Some(()), None)
    }
}

/// The final component of a path, as std's `Path::file_name` gives it on the
/// platform that the library is built for, where the path has one.
pub uninterp spec fn path_final_component(path: Seq<char>) -> Option<Seq<char>>;

/// Calls std's `Path::file_name` on `path`, and `OsStr::to_str` on what it
/// returns. Trusted: the outcome depends on the text of the path alone, so
/// it is the final component that the path has, or nothing where it has
/// none. Which part of a path that is, the platform decides, and no claim is
/// made of it.
#[verifier::external_body]
fn path_file_name(path: &str) -> (name: Option<String>)
    ensures
        name_view(name) == path_final_component(path@),
{
    std::path::Path::new(path).file_name().and_then(|name| name.to_str()).map(
        |name| name.to_string(),
    )
}

impl<U> HttpApiServer<U> {
    /// A gateway to the endpoint `host`:`port`, over TLS where `tls` is set,
    /// that owns the authentication capability `auth_service`.
    pub fn new(host: String, port: String, tls: bool, auth_service: U) -> (server: Self)
        ensures
            server@ == (HttpApiServerView { host: host@, port: port@, tls, auth_service }),
    {
        Self { host, port, tls, auth_service }
    }

    /// The host of the endpoint.
    pub fn host(&self) -> (host: &str)
        ensures
            host@ == self@.host,
    {
        self.host.as_str()
    }

    /// The port of the endpoint.
    pub fn port(&self) -> (port: &str)
        ensures
            port@ == self@.port,
    {
        self.port.as_str()
    }

    /// Whether the endpoint is reached over TLS.
    pub fn tls(&self) -> (tls: bool)
        ensures
            tls == self@.tls,
    {
        self.tls
    }

    /// The authentication capability, for the driver to put a question to.
    /// The endpoint stays as it is, whatever the driver does with the
    /// capability.
    pub fn auth_service(&mut self) -> (service: &mut U)
        ensures
            *service == old(self)@.auth_service,
            final(self)@ == (HttpApiServerView {
                auth_service: *final(service),
                ..old(self)@
            }),
    {
        &mut self.auth_service
    }

    /// One step of the authentication: what follows from the answer that the
    /// capability gave to `step`. A session ends the resolution; a failure
    /// moves from the cached session to the refresh and from the refresh to
    /// the login, and ends the resolution after the login.
    pub fn authenticate(
        &self,
        step: AuthStep,
        answer: Result<AuthData, AuthError>,
    ) -> (progress: AuthProgress)
        ensures
            progress@ == resolve(step, answer_view(answer)),
    {
        resolve_step(step, answer)
    }

    /// What the gateway returns for the capability's answer to a logout: the
    /// answer itself.
    pub fn logout(&self, answer: Result<(), AuthError>) -> (result: Result<(), AuthError>)
        ensures
            result == answer,
    {
        answer
    }

    /// Builds the plain request for `path`.
    pub fn request(&self, path: &str, method: Method) -> (request: Request)
        ensures
            request@ == self@.request(path@, method),
    {
        Request {
            method,
            url: compose_url(self.tls, self.host.as_str(), self.port.as_str(), path),
            user_agent: cli_user_agent(),
            authorization: None,
            form: None,
        }
    }

    /// Starts a call that needs a session for the request for `path`, and
    /// returns the decoded body on success.
    pub fn authenticated_request<T>(&self, path: &str, method: Method) -> (start: (
        Call<T>,
        Action<T>,
    ))
        ensures
            (start.0@, start.1@) == authenticated_call::<T>(
                self@.request(path@, method),
                None,
                None,
            ),
    {
        Call::authenticated(self.request(path, method), None, None)
    }

    /// Starts the version check.
    pub fn updates_check<T>(&self) -> (start: (Call<T>, Action<T>))
        ensures
            (start.0@, start.1@) == self@.updates_check::<T>(),
    {
        Call::open(self.request(UPDATES_ROUTE, Method::Get))
    }

    /// Starts the upload of the file at `fw_filepath` as a new project. `file`
    /// is what the driver found at the path. The name of the file part is the
    /// final component of the path; a path without one ends the call at once.
    pub fn create(
        &self,
        fw_filepath: &str,
        file: SourceFile,
        fw_type: &str,
        fw_subtype: &str,
        name: &str,
        description: Option<&str>,
    ) -> (start: (Call<ProjectId>, Action<ProjectId>))
        ensures
            (start.0@, start.1@) == self@.create(
                fw_filepath@,
                file@,
                path_final_component(fw_filepath@),
                upload_view(fw_type, fw_subtype, name, description),
            ),
            !file.exists || file.is_dir ==> (start.0@, start.1@) == finish::<ProjectId>(
                Err(ApiServerErrorView::RequestError(file_not_found(fw_filepath@))),
            ),
    {
        let file_name = path_file_name(fw_filepath);
        self.create_upload(fw_filepath, file, file_name, fw_type, fw_subtype, name, description)
    }

    /// Starts the upload of the file at `fw_filepath`, given the final
    /// component `file_name` of the path: what [`HttpApiServer::create`] does
    /// once it has that component.
    pub fn create_upload(
        &self,
        fw_filepath: &str,
        file: SourceFile,
        file_name: Option<String>,
        fw_type: &str,
        fw_subtype: &str,
        name: &str,
        description: Option<&str>,
    ) -> (start: (Call<ProjectId>, Action<ProjectId>))
        ensures
            (start.0@, start.1@) == self@.create(
                fw_filepath@,
                file@,
                name_view(file_name),
                upload_view(fw_type, fw_subtype, name, description),
            ),
    {
        if !file.exists || file.is_dir {
            let mut message = String::from_str("File ");
            message.append(fw_filepath);
            message.append(" not found");
            return finish_with(Err(ApiServerError::RequestError(message)));
        }
        let file_name = match file_name {
            Some(file_name) => file_name,
            None => {
                let mut message = String::from_str("Problem with image filename: ");
                message.append(fw_filepath);
                return finish_with(Err(ApiServerError::RequestError(message)));
            },
        };
        let bytes = match file.contents {
            Ok(bytes) => bytes,
            Err(text) => {
                return finish_with(Err(ApiServerError::RequestError(text)));
            },
        };
        let ghost form = upload_form(
            upload_view(fw_type, fw_subtype, name, description),
            file_name@,
            bytes@,
        );
        let mut parts: Vec<Part> = Vec::new();
        parts.push(Part::Text { name: String::from_str("name"), value: String::from_str(name) });
        parts.push(Part::Text { name: String::from_str("type"), value: String::from_str(fw_type) });
        parts.push(
            Part::Text { name: String::from_str("subtype"), value: String::from_str(fw_subtype) },
        );
        parts.push(Part::File { name: String::from_str("file"), file_name, bytes });
        if let Some(text) = description {
            parts.push(
                Part::Text {
                    name: String::from_str("description"),
                    value: String::from_str(text),
                },
            );
        }
        assert(parts_view(parts@) =~= form);
        let request = self.request(PROJECT_ROUTE_V1, Method::Post).with_form(parts);
        Call::authenticated(request, None, None)
    }

    /// Starts the fetch of a project's overview.
    pub fn overview(&self, project_id: &ProjectId) -> (start: (
        Call<serde_json::Value>,
        Action<serde_json::Value>,
    ))
        ensures
            (start.0@, start.1@) == self@.overview(*project_id),
    {
        let path = build_overview_path(project_id);
        self.authenticated_request(path.as_str(), Method::Get)
    }

    /// Starts the fetch of the analysis `analysis` of a project.
    pub fn analysis<T>(&self, project_id: &ProjectId, analysis: &str) -> (start: (
        Call<T>,
        Action<T>,
    ))
        ensures
            (start.0@, start.1@) == self@.analysis::<T>(*project_id, analysis@),
    {
        let path = build_analysis_path(project_id, analysis);
        self.authenticated_request(path.as_str(), Method::Get)
    }

    /// Starts the deletion of a project.
    pub fn delete(&self, project_id: &ProjectId) -> (start: (Call<()>, Action<()>))
        ensures
            (start.0@, start.1@) == self@.delete(*project_id),
    {
        let path = build_project_path(project_id);
        Call::authenticated(self.request(path.as_str(), Method::Delete), Some(()), None)
    }

    /// Starts the listing of the projects.
    pub fn list_projects<T>(&self) -> (start: (Call<T>, Action<T>))
        ensures
            (start.0@, start.1@) == self@.list_projects::<T>(),
    {
        self.authenticated_request(PROJECT_ROUTE_V1, Method::Get)
    }

    /// Starts the creation of the API key.
    pub fn apikey_create<T>(&self) -> (start: (Call<T>, Action<T>))
        ensures
            (start.0@, start.1@) == self@.apikey_create::<T>(),
    {
        let special = SpecialStatus {
            status: STATUS_BAD_REQUEST,
            message: String::from_str(APIKEY_PRESENT),
        };
        Call::authenticated(self.request(APIKEY_ROUTE_V1, Method::Post), None, Some(special))
    }

    /// Starts the fetch of the API key.
    pub fn apikey_list<T>(&self) -> (start: (Call<T>, Action<T>))
        ensures
            (start.0@, start.1@) == self@.apikey_list::<T>(),
    {
        let special = SpecialStatus {
            status: STATUS_NO_CONTENT,
            message: String::from_str(APIKEY_MISSING),
        };
        Call::authenticated(self.request(APIKEY_ROUTE_V1, Method::Get), None, Some(special))
    }

    /// Starts the deletion of the API key.
    pub fn apikey_delete(&self) -> (start: (Call<()>, Action<()>))
        ensures
            (start.0@, start.1@) == self@.apikey_delete(),
    {
        Call::authenticated(self.request(APIKEY_ROUTE_V1, Method::Delete), Some(()), None)
    }
}

} // verus!
