use exein_client::auth::{AuthData, AuthStep};
use exein_client::call::{Action, Call, SpecialStatus, Stage};
use exein_client::http_server::HttpApiServer;
use exein_client::project_id::ProjectId;
use exein_client::request::{
    authorize, cli_user_agent, compose_url, get_protocol, Method, Part, Request, CLI_NAME,
    CLI_VERSION,
};
use exein_client::route::{
    build_analysis_path, build_overview_path, build_project_path, APIKEY_ROUTE_V1,
    PROJECT_ROUTE_V1, UPDATES_ROUTE,
};

fn gateway(host: &str, port: &str, tls: bool) -> HttpApiServer<()> {
    HttpApiServer::new(host.to_string(), port.to_string(), tls, ())
}

#[test]
fn protocol_follows_the_tls_flag() {
    assert_eq!(get_protocol(true), "https");
    assert_eq!(get_protocol(false), "http");
}

#[test]
fn url_is_scheme_host_port_path() {
    assert_eq!(compose_url(false, "localhost", "8080", "/a"), "http://localhost:8080/a");
    assert_eq!(compose_url(true, "localhost", "8080", "/a"), "https://localhost:8080/a");
    assert_eq!(compose_url(true, "", "", ""), "https://:");
}

#[test]
fn request_url_for_every_configuration() {
    let hosts = ["localhost", "api.example.com", "10.0.0.7", ""];
    let ports = ["80", "443", "8080", ""];
    let paths = ["/api/updates_check", "/api/v1/projects", "", "/x?y=z"];
    for host in hosts {
        for port in ports {
            for path in paths {
                for tls in [false, true] {
                    let request = gateway(host, port, tls).request(path, Method::Get);
                    let scheme = if tls { "https" } else { "http" };
                    assert_eq!(request.url, format!("{}://{}:{}{}", scheme, host, port, path));
                }
            }
        }
    }
}

#[test]
fn plain_request_has_the_client_identifier_and_nothing_else() {
    let request = gateway("h", "1", false).request("/p", Method::Delete);
    assert_eq!(
        request,
        Request {
            method: Method::Delete,
            url: "http://h:1/p".to_string(),
            user_agent: "ExeinCLI/0.1.0".to_string(),
            authorization: None,
            form: None,
        }
    );
}

#[test]
fn user_agent_is_name_slash_version() {
    assert_eq!(CLI_NAME, "ExeinCLI");
    assert_eq!(CLI_VERSION, "0.1.0");
    assert_eq!(cli_user_agent(), "ExeinCLI/0.1.0");
}

#[test]
fn authorize_attaches_the_bearer_token() {
    let request = gateway("h", "1", true).request("/p", Method::Post);
    let signed = authorize(request, &AuthData { token: "abc.def".to_string() });
    assert_eq!(signed.authorization, Some("Bearer abc.def".to_string()));
    assert_eq!(signed.url, "https://h:1/p");
    assert_eq!(signed.method, Method::Post);
    assert_eq!(signed.user_agent, "ExeinCLI/0.1.0");
    assert_eq!(signed.form, None);
}

#[test]
fn routes_are_fixed() {
    assert_eq!(PROJECT_ROUTE_V1, "/api/v1/projects");
    assert_eq!(APIKEY_ROUTE_V1, "/api/v1/api_key");
    assert_eq!(UPDATES_ROUTE, "/api/updates_check");
}

#[test]
fn identifier_text_is_lower_case_and_hyphenated() {
    let id = ProjectId::from_u128(0xa1a2a3a4b1b2c1c2d1d2d3d4d5d6d7d8);
    assert_eq!(id.text(), "a1a2a3a4-b1b2-c1c2-d1d2-d3d4d5d6d7d8");
    assert_eq!(ProjectId::from_u128(0).text(), "00000000-0000-0000-0000-000000000000");
    assert_eq!(ProjectId::from_u128(u128::MAX).text(), "ffffffff-ffff-ffff-ffff-ffffffffffff");
    assert_eq!(
        ProjectId::from_u128(0x0123456789ABCDEF0123456789ABCDEF).text(),
        "01234567-89ab-cdef-0123-456789abcdef"
    );
    assert_eq!(id.as_u128(), 0xa1a2a3a4b1b2c1c2d1d2d3d4d5d6d7d8);
}

#[test]
fn identifier_text_is_what_the_uuid_crate_parses() {
    let parsed = uuid::Uuid::parse_str("67e55044-10b1-426f-9247-bb680e5fe0c8").unwrap();
    let id = ProjectId::from_u128(parsed.as_u128());
    assert_eq!(id.text(), "67e55044-10b1-426f-9247-bb680e5fe0c8");
}

#[test]
fn project_paths() {
    let id = ProjectId::from_u128(0x67e5504410b1426f9247bb680e5fe0c8);
    assert_eq!(build_project_path(&id), "/api/v1/projects/67e55044-10b1-426f-9247-bb680e5fe0c8");
    assert_eq!(
        build_overview_path(&id),
        "/api/v1/projects/67e55044-10b1-426f-9247-bb680e5fe0c8/overview"
    );
    assert_eq!(
        build_analysis_path(&id, "hardening"),
        "/api/v1/projects/67e55044-10b1-426f-9247-bb680e5fe0c8/analysis/hardening"
    );
    assert_eq!(
        build_analysis_path(&id, ""),
        "/api/v1/projects/67e55044-10b1-426f-9247-bb680e5fe0c8/analysis/"
    );
}

#[test]
fn with_form_sets_the_body_and_keeps_the_rest() {
    let request = gateway("h", "1", false).request("/p", Method::Post);
    let parts = || vec![Part::Text { name: "name".to_string(), value: "fw".to_string() }];
    let request = request.with_form(parts());
    assert_eq!(request.form, Some(parts()));
    assert_eq!(request.url, "http://h:1/p");
    assert_eq!(request.method, Method::Post);
    assert_eq!(request.authorization, None);
}

#[test]
fn open_call_sends_at_once() {
    let request = || gateway("h", "1", false).request("/p", Method::Get);
    let (call, action) = Call::<u8>::open(request());
    assert_eq!(call, Call { stage: Stage::Sending, empty: None, special: None });
    assert_eq!(action, Action::Send(request()));
    assert!(!call.is_finished());
}

#[test]
fn authenticated_call_asks_for_the_cached_session_first() {
    let request = || gateway("h", "1", false).request("/p", Method::Get);
    let special = || Some(SpecialStatus { status: 409, message: "conflict".to_string() });
    let (call, action) = Call::authenticated(request(), Some(7u8), special());
    assert_eq!(
        call,
        Call {
            stage: Stage::Authenticating { step: AuthStep::Session, request: request() },
            empty: Some(7u8),
            special: special(),
        }
    );
    assert_eq!(action, Action::CheckSession);
    let (call, action) = gateway("h", "1", false).authenticated_request::<u8>("/p", Method::Get);
    assert_eq!(
        call,
        Call {
            stage: Stage::Authenticating { step: AuthStep::Session, request: request() },
            empty: None,
            special: None,
        }
    );
    assert_eq!(action, Action::CheckSession);
}
