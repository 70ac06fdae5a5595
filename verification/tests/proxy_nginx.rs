use design_patterns::structural::proxy_nginx::{Application, NginxServer, Server};

/// A backend that counts how often it is asked and always gives the same
/// answer.
struct CountingBackend {
    calls: u32,
}

impl Server for CountingBackend {
    fn answers(
        self,
        _url: vstd::seq::Seq<char>,
        _method: vstd::seq::Seq<char>,
        _after: Self,
        _response: (u16, vstd::seq::Seq<char>),
    ) -> bool {
        true
    }

    fn handle_request(&mut self, _url: &str, _method: &str) -> (u16, String) {
        self.calls += 1;
        (200, "counted".to_string())
    }
}

fn ok() -> (u16, String) {
    (200, "Ok".to_string())
}

fn not_allowed() -> (u16, String) {
    (403, "Not Allowed".to_string())
}

#[test]
fn it_works() {
    let result = 2 + 2;
    assert_eq!(result, 4);
}

#[test]
fn application_routes() {
    let mut app = Application;
    assert_eq!(app.handle_request("/app/status", "GET"), ok());
    assert_eq!(
        app.handle_request("/create/user", "POST"),
        (200, "User Created".to_string())
    );
    assert_eq!(app.handle_request("/app/status", "POST"), (404, "Not found".to_string()));
    assert_eq!(app.handle_request("/create/user", "GET"), (404, "Not found".to_string()));
    assert_eq!(app.handle_request("/app/statu", "GET"), (404, "Not found".to_string()));
    assert_eq!(app.handle_request("/app/status/", "GET"), (404, "Not found".to_string()));
    assert_eq!(app.handle_request("", ""), (404, "Not found".to_string()));
}

#[test]
fn third_request_is_refused() {
    let mut server = NginxServer::new();
    assert_eq!(server.max_allowed_requests(), 2);
    assert_eq!(server.handle_request("/app/status", "GET"), ok());
    assert_eq!(server.handle_request("/app/status", "GET"), ok());
    assert_eq!(server.handle_request("/app/status", "GET"), not_allowed());
    assert_eq!(server.handle_request("/app/status", "GET"), not_allowed());
}

#[test]
fn unknown_route_is_not_found() {
    let mut server = NginxServer::new();
    assert_eq!(server.handle_request("/missing", "GET"), (404, "Not found".to_string()));
}

#[test]
fn unknown_route_is_counted() {
    let mut server = NginxServer::new();
    assert_eq!(server.handle_request("/missing", "GET"), (404, "Not found".to_string()));
    assert_eq!(server.handle_request("/missing", "GET"), (404, "Not found".to_string()));
    assert_eq!(server.handle_request("/missing", "GET"), not_allowed());
}

#[test]
fn threshold_zero_refuses_the_first_request() {
    let mut server = NginxServer::with_application(Application, 0);
    assert_eq!(server.handle_request("/app/status", "GET"), not_allowed());
    assert_eq!(server.handle_request("/create/user", "POST"), not_allowed());
    assert!(!server.check_rate_limiting("/anything"));
}

#[test]
fn first_requests_pass_then_all_are_refused() {
    for max in [0u32, 1, 2, 3, 7] {
        let mut server = NginxServer::with_application(Application, max);
        for _ in 0..max {
            assert!(server.check_rate_limiting("/k"));
        }
        for _ in 0..5 {
            assert!(!server.check_rate_limiting("/k"));
        }
    }
}

#[test]
fn resources_are_counted_apart() {
    let mut server = NginxServer::with_application(Application, 2);
    assert!(server.check_rate_limiting("/a"));
    assert!(server.check_rate_limiting("/a"));
    assert!(!server.check_rate_limiting("/a"));
    assert!(server.check_rate_limiting("/b"));
    assert!(!server.check_rate_limiting("/a"));
    assert!(server.check_rate_limiting("/b"));
    assert!(!server.check_rate_limiting("/b"));
}

#[test]
fn method_does_not_matter_to_the_limit() {
    let mut server = NginxServer::new();
    assert_eq!(server.handle_request("/create/user", "GET"), (404, "Not found".to_string()));
    assert_eq!(
        server.handle_request("/create/user", "POST"),
        (200, "User Created".to_string())
    );
    assert_eq!(server.handle_request("/create/user", "POST"), not_allowed());
}

#[test]
fn refused_request_does_not_reach_the_backend() {
    let mut server = NginxServer::with_application(CountingBackend { calls: 0 }, 2);
    assert_eq!(server.handle_request("/x", "GET"), (200, "counted".to_string()));
    assert_eq!(server.application().calls, 1);
    assert_eq!(server.handle_request("/x", "GET"), (200, "counted".to_string()));
    assert_eq!(server.application().calls, 2);
    assert_eq!(server.handle_request("/x", "GET"), not_allowed());
    assert_eq!(server.application().calls, 2);
    assert_eq!(server.handle_request("/x", "PUT"), not_allowed());
    assert_eq!(server.application().calls, 2);
    assert_eq!(server.handle_request("/y", "GET"), (200, "counted".to_string()));
    assert_eq!(server.application().calls, 3);
}

#[test]
fn demo_sequence() {
    let mut server = NginxServer::new();
    assert_eq!(server.handle_request("/app/status", "GET"), ok());
    assert_eq!(server.handle_request("/app/status", "GET"), ok());
    assert_eq!(server.handle_request("/app/status", "GET"), not_allowed());
    assert_eq!(server.handle_request("/create/user", "GET"), (404, "Not found".to_string()));
}

#[test]
fn demo_reports() {
    let mut out = design_patterns::transcript::Transcript::new();
    design_patterns::structural::proxy_nginx::demo(&mut out);
    assert_eq!(
        out.lines(),
        &vec![
            "Url:/app/status\nHttpCode: 200\nBody: Ok\n".to_string(),
            "Url:/app/status\nHttpCode: 200\nBody: Ok\n".to_string(),
            "Url:/app/status\nHttpCode: 403\nBody: Not Allowed\n".to_string(),
            "Url:/create/user\nHttpCode: 404\nBody: Not found\n".to_string(),
        ]
    );
}
