use exein_client::auth::{AuthData, AuthStep};
use exein_client::call::{
    Action, Call, Event, SpecialStatus, Stage, STATUS_BAD_REQUEST, STATUS_NO_CONTENT, STATUS_OK,
};
use exein_client::error::{ApiServerError, AuthError};
use exein_client::http_server::HttpApiServer;
use exein_client::json::read_document;
use exein_client::project_id::ProjectId;
use exein_client::request::{Method, Request};

/// What the stub capability and the stub transport do, and what they saw.
struct Stub {
    session: bool,
    refresh: bool,
    login: bool,
    /// The responses that the transport gives, one per request.
    responses: Vec<(u16, &'static str)>,
    transport_fails: bool,
    asked: Vec<AuthStep>,
    sent: Vec<Request>,
    bodies_read: usize,
    body: &'static str,
}

impl Stub {
    fn answering(responses: Vec<(u16, &'static str)>) -> Stub {
        Stub {
            session: true,
            refresh: true,
            login: true,
            responses,
            transport_fails: false,
            asked: Vec::new(),
            sent: Vec::new(),
            bodies_read: 0,
            body: "",
        }
    }

    fn ask(&mut self, step: AuthStep) -> Result<AuthData, AuthError> {
        self.asked.push(step);
        let granted = match step {
            AuthStep::Session => self.session,
            AuthStep::Refresh => self.refresh,
            AuthStep::Login => self.login,
        };
        if granted {
            Ok(AuthData { token: "secret-token".to_string() })
        } else {
            Err(AuthError { message: format!("{:?} refused", step) })
        }
    }

    /// Performs the actions of one call until it returns.
    fn run<T>(
        &mut self,
        start: (Call<T>, Action<T>),
        decode: fn(&str) -> Result<T, String>,
    ) -> Result<T, ApiServerError> {
        let (mut call, mut action) = start;
        loop {
            let event = match action {
                Action::CheckSession => Event::Session(self.ask(AuthStep::Session)),
                Action::Refresh => Event::Session(self.ask(AuthStep::Refresh)),
                Action::Login => Event::Session(self.ask(AuthStep::Login)),
                Action::Send(request) => {
                    self.sent.push(request);
                    if self.transport_fails {
                        Event::Failure("connection refused".to_string())
                    } else {
                        let (status, body) = self.responses.remove(0);
                        self.body = body;
                        Event::Status(status)
                    }
                }
                Action::ReadPayload => {
                    self.bodies_read += 1;
                    match decode(self.body) {
                        Ok(payload) => Event::Payload(payload),
                        Err(text) => Event::Failure(text),
                    }
                }
                Action::ReadText => {
                    self.bodies_read += 1;
                    Event::Text(self.body.to_string())
                }
                Action::Return(result) => {
                    assert!(call.is_finished());
                    return result;
                }
            };
            assert!(!call.is_finished());
            let next = call.advance(event);
            call = next.0;
            action = next.1;
        }
    }
}

fn gateway() -> HttpApiServer<()> {
    HttpApiServer::new("api.example.com".to_string(), "443".to_string(), true, ())
}

fn text(body: &str) -> Result<String, String> {
    Ok(body.to_string())
}

fn no_body(_body: &str) -> Result<(), String> {
    panic!("the body of this response is not for reading")
}

fn json(body: &str) -> Result<serde_json::Value, String> {
    match read_document(body.as_bytes()) {
        Event::Payload(document) => Ok(document),
        Event::Failure(text) => Err(text),
        other => panic!("a body is a document or a failure, not {:?}", other),
    }
}

fn project_id(body: &str) -> Result<ProjectId, String> {
    let document = json(body)?;
    let id = document.get("id").and_then(|id| id.as_str()).ok_or("no id".to_string())?;
    let uuid = uuid::Uuid::parse_str(id).map_err(|error| error.to_string())?;
    Ok(ProjectId::from_u128(uuid.as_u128()))
}

fn plain(method: Method, url: &str) -> Request {
    Request {
        method,
        url: url.to_string(),
        user_agent: "ExeinCLI/0.1.0".to_string(),
        authorization: None,
        form: None,
    }
}

fn signed(method: Method, url: &str) -> Request {
    Request { authorization: Some("Bearer secret-token".to_string()), ..plain(method, url) }
}

const ID: u128 = 0x67e5504410b1426f9247bb680e5fe0c8;
const ID_TEXT: &str = "67e55044-10b1-426f-9247-bb680e5fe0c8";

#[test]
fn updates_check_is_sent_without_a_session() {
    let mut stub = Stub::answering(vec![(200, "1.2.3")]);
    let result = stub.run(gateway().updates_check(), text);
    assert_eq!(result, Ok("1.2.3".to_string()));
    assert_eq!(stub.asked, vec![]);
    assert_eq!(stub.sent, vec![plain(Method::Get, "https://api.example.com:443/api/updates_check")]);
}

#[test]
fn updates_check_failure_is_the_body() {
    let mut stub = Stub::answering(vec![(503, "maintenance")]);
    let result = stub.run(gateway().updates_check(), text);
    assert_eq!(result, Err(ApiServerError::ApiError("maintenance".to_string())));
}

#[test]
fn overview_gets_the_overview_path_with_the_token() {
    let mut stub = Stub::answering(vec![(200, "{\"files\": 3, \"name\": \"fw\"}")]);
    let result = stub.run(gateway().overview(&ProjectId::from_u128(ID)), json);
    let expected: serde_json::Value = serde_json::from_str("{\"name\":\"fw\",\"files\":3}").unwrap();
    assert_eq!(result, Ok(expected));
    assert_eq!(stub.asked, vec![AuthStep::Session]);
    assert_eq!(
        stub.sent,
        vec![signed(
            Method::Get,
            &format!("https://api.example.com:443/api/v1/projects/{}/overview", ID_TEXT)
        )]
    );
}

#[test]
fn read_document_decodes_json_and_nothing_else() {
    let expected: serde_json::Value = serde_json::from_str("[1, {\"a\": null}, \"x\"]").unwrap();
    assert_eq!(read_document(b"[1,{\"a\":null},\"x\"]"), Event::Payload(expected));
    assert_eq!(read_document(b" 12 "), Event::Payload(serde_json::Value::from(12)));
    assert!(matches!(read_document(b""), Event::Failure(_)));
    assert!(matches!(read_document(b"{\"a\": 1"), Event::Failure(_)));
    assert!(matches!(read_document(b"\xff\xfe"), Event::Failure(_)));
    assert_ne!(read_document(b"[1]"), Event::Payload(serde_json::Value::from(1)));
}

#[test]
fn overview_with_an_undecodable_body_is_a_request_error() {
    let mut stub = Stub::answering(vec![(200, "{not json")]);
    let result = stub.run(gateway().overview(&ProjectId::from_u128(ID)), json);
    assert!(matches!(result, Err(ApiServerError::RequestError(_))));
    assert_eq!(stub.sent.len(), 1);
}

#[test]
fn analysis_gets_the_analysis_path() {
    let mut stub = Stub::answering(vec![(200, "report")]);
    let result = stub.run(gateway().analysis(&ProjectId::from_u128(ID), "hardening"), text);
    assert_eq!(result, Ok("report".to_string()));
    assert_eq!(
        stub.sent,
        vec![signed(
            Method::Get,
            &format!("https://api.example.com:443/api/v1/projects/{}/analysis/hardening", ID_TEXT)
        )]
    );
}

#[test]
fn list_projects_gets_the_collection() {
    let mut stub = Stub::answering(vec![(200, "[]")]);
    let result = stub.run(gateway().list_projects(), text);
    assert_eq!(result, Ok("[]".to_string()));
    assert_eq!(stub.sent, vec![signed(Method::Get, "https://api.example.com:443/api/v1/projects")]);
}

#[test]
fn delete_succeeds_without_reading_the_body() {
    let mut stub = Stub::answering(vec![(200, "ignored")]);
    let result = stub.run(gateway().delete(&ProjectId::from_u128(ID)), no_body);
    assert_eq!(result, Ok(()));
    assert_eq!(stub.bodies_read, 0);
    assert_eq!(
        stub.sent,
        vec![signed(
            Method::Delete,
            &format!("https://api.example.com:443/api/v1/projects/{}", ID_TEXT)
        )]
    );
}

#[test]
fn delete_twice_succeeds_then_fails_without_retry() {
    let mut stub = Stub::answering(vec![(200, ""), (404, "project not found")]);
    let server = gateway();
    let id = ProjectId::from_u128(ID);
    let first = stub.run(server.delete(&id), no_body);
    assert_eq!(first, Ok(()));
    assert_eq!(stub.sent.len(), 1);
    let second = stub.run(server.delete(&id), no_body);
    assert_eq!(second, Err(ApiServerError::ApiError("project not found".to_string())));
    assert_eq!(stub.sent.len(), 2);
    assert!(stub.responses.is_empty());
}

#[test]
fn apikey_create_with_400_is_the_fixed_message() {
    let mut stub = Stub::answering(vec![(400, "{\"detail\": \"duplicate\"}")]);
    let result = stub.run(gateway().apikey_create(), text);
    assert_eq!(result, Err(ApiServerError::ApiError("API key already present!".to_string())));
    assert_eq!(stub.bodies_read, 0);
    assert_eq!(stub.sent, vec![signed(Method::Post, "https://api.example.com:443/api/v1/api_key")]);
}

#[test]
fn apikey_create_with_200_is_the_payload() {
    let mut stub = Stub::answering(vec![(200, "key-material")]);
    let result = stub.run(gateway().apikey_create(), text);
    assert_eq!(result, Ok("key-material".to_string()));
}

#[test]
fn apikey_create_with_204_is_the_body() {
    let mut stub = Stub::answering(vec![(204, "")]);
    let result = stub.run(gateway().apikey_create(), text);
    assert_eq!(result, Err(ApiServerError::ApiError("".to_string())));
    assert_eq!(stub.bodies_read, 1);
}

#[test]
fn apikey_list_with_204_is_the_fixed_message() {
    let mut stub = Stub::answering(vec![(204, "raw body")]);
    let result = stub.run(gateway().apikey_list(), text);
    assert_eq!(result, Err(ApiServerError::ApiError("No API key found!".to_string())));
    assert_eq!(result.unwrap_err().message(), "No API key found!");
    assert_eq!(stub.bodies_read, 0);
    assert_eq!(stub.sent, vec![signed(Method::Get, "https://api.example.com:443/api/v1/api_key")]);
}

#[test]
fn apikey_list_with_400_is_the_body() {
    let mut stub = Stub::answering(vec![(400, "bad request")]);
    let result = stub.run(gateway().apikey_list(), text);
    assert_eq!(result, Err(ApiServerError::ApiError("bad request".to_string())));
}

#[test]
fn apikey_delete_succeeds_without_reading_the_body() {
    let mut stub = Stub::answering(vec![(200, "")]);
    let result = stub.run(gateway().apikey_delete(), no_body);
    assert_eq!(result, Ok(()));
    assert_eq!(
        stub.sent,
        vec![signed(Method::Delete, "https://api.example.com:443/api/v1/api_key")]
    );
}

#[test]
fn error_body_is_the_message_for_every_operation() {
    let id = ProjectId::from_u128(ID);
    let body = "{\"error\": \"teapot\"}";
    let expected = || ApiServerError::ApiError(body.to_string());
    for status in [201u16, 204, 301, 400, 401, 403, 404, 418, 500, 503] {
        let server = gateway();
        let run = || Stub::answering(vec![(status, body)]);
        assert_eq!(run().run(server.updates_check(), text), Err(expected()));
        assert_eq!(run().run(server.overview(&id), json), Err(expected()));
        assert_eq!(run().run(server.analysis(&id, "k"), text), Err(expected()));
        assert_eq!(run().run(server.delete(&id), no_body), Err(expected()));
        assert_eq!(run().run(server.list_projects(), text), Err(expected()));
        assert_eq!(run().run(server.apikey_delete(), no_body), Err(expected()));
        if status != STATUS_BAD_REQUEST {
            assert_eq!(run().run(server.apikey_create(), text), Err(expected()));
        }
        if status != STATUS_NO_CONTENT {
            assert_eq!(run().run(server.apikey_list(), text), Err(expected()));
        }
    }
}

#[test]
fn only_200_is_success() {
    assert_eq!(STATUS_OK, 200);
    assert_eq!(STATUS_NO_CONTENT, 204);
    assert_eq!(STATUS_BAD_REQUEST, 400);
    for status in [0u16, 199, 201, 202, 206, 299] {
        let mut stub = Stub::answering(vec![(status, "body")]);
        let result = stub.run(gateway().list_projects(), text);
        assert_eq!(result, Err(ApiServerError::ApiError("body".to_string())));
    }
}

#[test]
fn refreshed_session_signs_the_request() {
    let mut stub = Stub::answering(vec![(200, "[]")]);
    stub.session = false;
    let result = stub.run(gateway().list_projects(), text);
    assert_eq!(result, Ok("[]".to_string()));
    assert_eq!(stub.asked, vec![AuthStep::Session, AuthStep::Refresh]);
    assert_eq!(stub.sent.len(), 1);
}

#[test]
fn failed_login_ends_the_call_before_any_request() {
    let mut stub = Stub::answering(vec![(200, "[]")]);
    stub.session = false;
    stub.refresh = false;
    stub.login = false;
    let result = stub.run(gateway().list_projects(), text);
    assert_eq!(
        result,
        Err(ApiServerError::AuthError(AuthError { message: "Login refused".to_string() }))
    );
    assert_eq!(stub.asked, vec![AuthStep::Session, AuthStep::Refresh, AuthStep::Login]);
    assert_eq!(stub.sent, vec![]);
}

#[test]
fn transport_failure_is_a_request_error() {
    let mut stub = Stub::answering(vec![]);
    stub.transport_fails = true;
    let result = stub.run(gateway().list_projects(), text);
    assert_eq!(result, Err(ApiServerError::RequestError("connection refused".to_string())));
    assert_eq!(stub.sent.len(), 1);
}

#[test]
fn failure_while_reading_the_error_body_is_a_request_error() {
    let (call, _) = gateway().list_projects::<String>();
    let (call, _) = call.advance(Event::Session(Ok(AuthData { token: "t".to_string() })));
    let (call, action) = call.advance(Event::Status(500));
    assert_eq!(action, Action::ReadText);
    let (call, action) = call.advance(Event::Failure("reset by peer".to_string()));
    assert_eq!(
        action,
        Action::Return(Err(ApiServerError::RequestError("reset by peer".to_string())))
    );
    assert!(call.is_finished());
}

#[test]
fn unexpected_event_ends_the_call() {
    let refused = || {
        Action::<String>::Return(Err(ApiServerError::RequestError(
            "Unexpected event for the stage of the call".to_string(),
        )))
    };
    let (call, _) = gateway().list_projects::<String>();
    let (call, action) = call.advance(Event::Status(200));
    assert_eq!(action, refused());
    assert!(call.is_finished());

    let (call, _) = gateway().updates_check::<String>();
    let (_, action) = call.advance(Event::Text("early".to_string()));
    assert_eq!(action, refused());

    let (call, _) = gateway().updates_check::<String>();
    let (call, _) = call.advance(Event::Status(200));
    let (_, action) = call.advance(Event::Text("not the payload".to_string()));
    assert_eq!(action, refused());

    let (call, _) = gateway().updates_check::<String>();
    let (call, _) = call.advance(Event::Status(500));
    let (_, action) = call.advance(Event::Payload("not the text".to_string()));
    assert_eq!(action, refused());
}

#[test]
fn finished_call_refuses_every_event() {
    let (call, _) = gateway().updates_check::<String>();
    let (call, _) = call.advance(Event::Failure("down".to_string()));
    assert!(call.is_finished());
    let (call, action) = call.advance(Event::Failure("down again".to_string()));
    assert_eq!(
        action,
        Action::Return(Err(ApiServerError::RequestError(
            "Unexpected event for the stage of the call".to_string()
        )))
    );
    assert_eq!(call, Call { stage: Stage::Finished, empty: None, special: None });
}

#[test]
fn special_status_does_not_override_success() {
    let call = Call::<String> {
        stage: Stage::Sending,
        empty: None,
        special: Some(SpecialStatus { status: 200, message: "never".to_string() }),
    };
    let (call, action) = call.advance(Event::Status(200));
    assert_eq!(action, Action::ReadPayload);
    assert_eq!(call.stage, Stage::ReadingPayload);
}

#[test]
fn project_creation_reply_yields_the_parsed_identifier() {
    let (call, _) = gateway().authenticated_request::<ProjectId>("/api/v1/projects", Method::Post);
    let mut stub = Stub::answering(vec![(200, "{\"id\": \"67e55044-10b1-426f-9247-bb680e5fe0c8\"}")]);
    let result = stub.run((call, Action::CheckSession), project_id);
    assert_eq!(result, Ok(ProjectId::from_u128(ID)));
    assert_eq!(result.unwrap().text(), ID_TEXT);
}

#[test]
fn error_messages_are_what_the_errors_carry() {
    assert_eq!(ApiServerError::RequestError("a".to_string()).message(), "a");
    assert_eq!(ApiServerError::ApiError("b".to_string()).message(), "b");
    assert_eq!(
        ApiServerError::AuthError(AuthError { message: "c".to_string() }).message(),
        "c"
    );
}

fn event(kind: usize) -> Event<u8> {
    match kind {
        0 => Event::Session(Ok(AuthData { token: "t".to_string() })),
        1 => Event::Session(Err(AuthError { message: "no".to_string() })),
        2 => Event::Status(200),
        3 => Event::Status(404),
        4 => Event::Payload(9),
        5 => Event::Text("body".to_string()),
        _ => Event::Failure("down".to_string()),
    }
}

fn start(kind: usize) -> (Call<u8>, Action<u8>) {
    match kind {
        0 => gateway().list_projects(),
        1 => gateway().apikey_list(),
        2 => Call::authenticated(gateway().request("/p", Method::Delete), Some(1), None),
        _ => gateway().updates_check(),
    }
}

#[test]
fn five_events_end_any_call_and_no_call_sends_twice() {
    for first in 0..4 {
        for code in 0..7usize.pow(5) {
            let (mut call, mut action) = start(first);
            let mut sends = if matches!(action, Action::Send(_)) { 1 } else { 0 };
            let mut rest = code;
            for _ in 0..5 {
                let was_finished = call.is_finished();
                let next = call.advance(event(rest % 7));
                rest /= 7;
                call = next.0;
                action = next.1;
                if matches!(action, Action::Send(_)) {
                    sends += 1;
                }
                assert_eq!(call.is_finished(), matches!(action, Action::Return(_)));
                assert!(!was_finished || call.is_finished());
            }
            assert!(call.is_finished());
            assert!(sends <= 1);
        }
    }
}

#[test]
fn four_events_may_leave_a_call_unfinished() {
    let (call, _) = gateway().list_projects::<u8>();
    let (call, _) = call.advance(event(1));
    let (call, _) = call.advance(event(1));
    let (call, _) = call.advance(event(0));
    let (call, action) = call.advance(event(3));
    assert_eq!(action, Action::ReadText);
    assert!(!call.is_finished());
}
