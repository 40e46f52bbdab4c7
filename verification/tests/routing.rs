use webroute::codes::ResponseCode;
use webroute::request::Method;
use webroute::request::Request;
use webroute::response::format_response;
use webroute::response::StatusLine;
use webroute::route::parse_failure_response;
use webroute::route::server_error_response;
use webroute::route::FsAction;
use webroute::route::FsEvent;
use webroute::route::Handler;
use webroute::route::HandlerError;
use webroute::route::ProbeOutcome;
use webroute::route::RegisterError;
use webroute::route::Route;
use webroute::route::RouteError;
use webroute::route::RouteResponse;
use webroute::route::Routes;

#[derive(Clone, Copy)]
struct FixedHandler;

impl Handler for FixedHandler {
    fn handle(&self, _request: &Request) -> Result<RouteResponse, HandlerError> {
        Ok(RouteResponse::new_ok("Sleeping".to_string(), ResponseCode::Okay))
    }
}

fn parse(text: &[&str]) -> Request {
    let lines: Vec<String> = text.iter().map(|s| s.to_string()).collect();
    Request::parse(&lines).unwrap()
}

fn respond(r: Result<FsAction, RouteError>) -> RouteResponse {
    match r.unwrap() {
        FsAction::Respond(resp) => resp,
        _ => panic!("expected a finished response"),
    }
}

#[test]
fn pretty_string_not_found() {
    assert_eq!(ResponseCode::Not_Found.pretty_string(), "404 Not Found");
}

#[test]
fn pretty_string_samples() {
    assert_eq!(ResponseCode::Okay.pretty_string(), "200 Ok");
    assert_eq!(ResponseCode::Bad_Request.pretty_string(), "400 Bad Request");
    assert_eq!(
        ResponseCode::Method_Not_Allowed.pretty_string(),
        "405 Method Not Allowed"
    );
    assert_eq!(
        ResponseCode::HTTP_Version_Not_Supported.pretty_string(),
        "505 HTTP Version Not Supported"
    );
    assert_eq!(
        ResponseCode::Network_Authentication_Required.pretty_string(),
        "511 Network Authentication Required"
    );
}

#[test]
fn status_line_keeps_underscores() {
    assert_eq!(StatusLine::new(ResponseCode::Not_Found).render(), "HTTP/1.1 404 Not_Found");
    assert_eq!(StatusLine::new(ResponseCode::Okay).render(), "HTTP/1.1 200 Ok");
}

#[test]
fn wire_response_counts_bytes() {
    assert_eq!(
        format_response(ResponseCode::Okay, "hi"),
        "HTTP/1.1 200 Ok\r\nContent-Length: 2\r\n\r\nhi"
    );
    assert_eq!(
        format_response(ResponseCode::Not_Found, ""),
        "HTTP/1.1 404 Not_Found\r\nContent-Length: 0\r\n\r\n"
    );
}

#[test]
fn registered_plain_route_served_verbatim() {
    let mut routes: Routes<FixedHandler> = Routes::new();
    routes.add_plain("/plain".to_string(), "Test Plain".to_string(), None).unwrap();
    let req = parse(&["GET /plain HTTP/1.1"]);
    let resp = respond(routes.apply(&req, &FsEvent::Start));
    assert_eq!(resp.content(), "Test Plain");
    assert_eq!(resp.code(), ResponseCode::Okay);
    assert!(!resp.should_log());
}

#[test]
fn registered_static_route_becomes_read_then_response() {
    let mut routes: Routes<FixedHandler> = Routes::new();
    routes.add_static("/".to_string(), "hello.html".to_string(), None).unwrap();
    let req = parse(&["GET / HTTP/1.1"]);
    let (path, code) = match routes.apply(&req, &FsEvent::Start).unwrap() {
        FsAction::Read { path, code } => (path, code),
        _ => panic!("expected a file read"),
    };
    assert_eq!(path, "hello.html");
    assert_eq!(code, ResponseCode::Okay);
    let contents = "hello world".to_string();
    let resp = respond(routes.apply(
        &req,
        &FsEvent::FileRead { code, content: Some(contents.clone()) },
    ));
    assert_eq!(resp.content(), "hello world");
    assert_eq!(resp.code(), ResponseCode::Okay);
    let wire = format_response(resp.code(), resp.content());
    assert_eq!(wire, "HTTP/1.1 200 Ok\r\nContent-Length: 11\r\n\r\nhello world");
}

#[test]
fn missing_route_yields_builtin_not_found() {
    let mut routes: Routes<FixedHandler> = Routes::new();
    routes.add_plain("/plain".to_string(), "Test Plain".to_string(), None).unwrap();
    let req = parse(&["GET /missing HTTP/1.1"]);
    let resp = respond(routes.apply(&req, &FsEvent::Start));
    assert_eq!(resp.content(), "404 Not Found");
    assert_eq!(resp.code(), ResponseCode::Not_Found);
}

#[test]
fn not_found_override_is_used() {
    let mut routes: Routes<FixedHandler> = Routes::new();
    routes.set_404(Route::Static("404.html".to_string(), Some(ResponseCode::Not_Found)));
    let req = parse(&["GET /missing HTTP/1.1"]);
    match routes.apply(&req, &FsEvent::Start).unwrap() {
        FsAction::Read { path, code } => {
            assert_eq!(path, "404.html");
            assert_eq!(code, ResponseCode::Not_Found);
        },
        _ => panic!("expected a read of the override file"),
    }
}

#[test]
fn static_mount_with_wrong_method_yields_405_logged() {
    let mut routes: Routes<FixedHandler> = Routes::new();
    routes.set_static_dir("files/".to_string());
    let req = parse(&["POST /files/page.html HTTP/1.1"]);
    let resp = respond(routes.apply(&req, &FsEvent::Start));
    assert_eq!(resp.code(), ResponseCode::Method_Not_Allowed);
    assert!(resp.should_log());
    let msg = "Method: POST, not allowed. Expecting: GET, instead.";
    assert_eq!(resp.content(), msg);
    assert_eq!(resp.context().unwrap(), msg);
}

#[test]
fn static_mount_get_probes_then_reads() {
    let mut routes: Routes<FixedHandler> = Routes::new();
    routes.set_static_dir("files/".to_string());
    let req = parse(&["GET /files/page.html HTTP/1.1"]);
    let (dir, rest) = match routes.apply(&req, &FsEvent::Start).unwrap() {
        FsAction::Probe { dir, rest } => (dir, rest),
        _ => panic!("expected a probe"),
    };
    assert_eq!(dir, "files/");
    assert_eq!(rest, "page.html");
    let event = FsEvent::Probed {
        boundary: "/srv/files".to_string(),
        outcome: ProbeOutcome::Resolved {
            canonical: "/srv/files/page.html".to_string(),
            exists: true,
            is_dir: false,
        },
    };
    match routes.apply(&req, &event).unwrap() {
        FsAction::Read { path, code } => {
            assert_eq!(path, "/srv/files/page.html");
            assert_eq!(code, ResponseCode::Okay);
        },
        _ => panic!("expected a file read"),
    }
}

#[test]
fn candidate_outside_boundary_is_forbidden() {
    let mut routes: Routes<FixedHandler> = Routes::new();
    routes.set_static_dir("files/".to_string());
    routes.add_plain("/x".to_string(), "y".to_string(), None).unwrap();
    let req = parse(&["GET /files/%2e%2e/secret HTTP/1.1"]);
    let event = FsEvent::Probed {
        boundary: "/srv/files".to_string(),
        outcome: ProbeOutcome::Resolved {
            canonical: "/srv/secret".to_string(),
            exists: true,
            is_dir: false,
        },
    };
    let resp = respond(routes.apply(&req, &event));
    assert_eq!(resp.code(), ResponseCode::Forbidden);
    assert_eq!(resp.content(), "Forbidden");
    assert!(resp.should_log());
    assert_eq!(resp.context().unwrap(), "Invalid path traversal");
}

#[test]
fn sibling_prefix_is_outside_boundary() {
    let mut routes: Routes<FixedHandler> = Routes::new();
    routes.set_static_dir("files/".to_string());
    let req = parse(&["GET /files/a HTTP/1.1"]);
    let event = FsEvent::Probed {
        boundary: "/srv/files".to_string(),
        outcome: ProbeOutcome::Resolved {
            canonical: "/srv/files-secret/a".to_string(),
            exists: true,
            is_dir: false,
        },
    };
    let resp = respond(routes.apply(&req, &event));
    assert_eq!(resp.code(), ResponseCode::Forbidden);
}

#[test]
fn unresolved_probe_falls_to_not_found() {
    let mut routes: Routes<FixedHandler> = Routes::new();
    routes.set_static_dir("files/".to_string());
    let req = parse(&["GET /files/missing HTTP/1.1"]);
    let event = FsEvent::Probed {
        boundary: "/srv/files".to_string(),
        outcome: ProbeOutcome::Unresolved { exists: false },
    };
    let resp = respond(routes.apply(&req, &event));
    assert_eq!(resp.code(), ResponseCode::Not_Found);
}

#[test]
fn directory_with_listing_off_is_not_found() {
    let mut routes: Routes<FixedHandler> = Routes::new();
    routes.set_static_dir("files/".to_string());
    let req = parse(&["GET /files/sub HTTP/1.1"]);
    let event = FsEvent::Probed {
        boundary: "/srv/files".to_string(),
        outcome: ProbeOutcome::Resolved {
            canonical: "/srv/files/sub".to_string(),
            exists: true,
            is_dir: true,
        },
    };
    let resp = respond(routes.apply(&req, &event));
    assert_eq!(resp.code(), ResponseCode::Not_Found);
}

#[test]
fn directory_with_listing_on_is_unimplemented() {
    let mut routes: Routes<FixedHandler> = Routes::new();
    routes.set_static_dir("files/".to_string());
    routes.set_auto_index(true);
    let req = parse(&["GET /files/sub HTTP/1.1"]);
    let event = FsEvent::Probed {
        boundary: "/srv/files".to_string(),
        outcome: ProbeOutcome::Resolved {
            canonical: "/srv/files/sub".to_string(),
            exists: true,
            is_dir: true,
        },
    };
    let resp = respond(routes.apply(&req, &event));
    assert_eq!(resp.code(), ResponseCode::Not_Implemented);
    assert_eq!(resp.content(), "Sorry! Directory Auto-Index is not yet available.");
}

#[test]
fn exact_match_wins_over_static_mount() {
    let mut routes: Routes<FixedHandler> = Routes::new();
    routes.set_static_dir("files/".to_string());
    routes.add_plain("/files/special".to_string(), "inline".to_string(), None).unwrap();
    let req = parse(&["GET /files/special HTTP/1.1"]);
    let resp = respond(routes.apply(&req, &FsEvent::Start));
    assert_eq!(resp.content(), "inline");
}

#[test]
fn duplicate_registration_fails_and_keeps_first() {
    let mut routes: Routes<FixedHandler> = Routes::new();
    routes.add_plain("/p".to_string(), "first".to_string(), None).unwrap();
    let second = routes.add_plain("/p".to_string(), "second".to_string(), None);
    assert_eq!(second.unwrap_err(), RegisterError::TargetExists);
    let third = routes.add_static("/p".to_string(), "p.html".to_string(), None);
    assert_eq!(third.unwrap_err(), RegisterError::TargetExists);
    let req = parse(&["GET /p HTTP/1.1"]);
    let resp = respond(routes.apply(&req, &FsEvent::Start));
    assert_eq!(resp.content(), "first");
}

#[test]
fn dynamic_route_runs_handler_per_method() {
    let mut routes: Routes<FixedHandler> = Routes::new();
    routes
        .add_dynamic(
            "/sleep".to_string(),
            vec![Method::GET, Method::POST],
            FixedHandler,
        )
        .unwrap();
    let get = parse(&["GET /sleep HTTP/1.1"]);
    let post = parse(&["POST /sleep HTTP/1.1", "", "3"]);
    assert_eq!(respond(routes.apply(&get, &FsEvent::Start)).content(), "Sleeping");
    assert_eq!(respond(routes.apply(&post, &FsEvent::Start)).content(), "Sleeping");
    let dup = routes.add_dynamic("/sleep".to_string(), vec![Method::GET], FixedHandler);
    assert_eq!(dup.unwrap_err(), RegisterError::TargetExists);
}

#[test]
fn failed_file_read_propagates() {
    let mut routes: Routes<FixedHandler> = Routes::new();
    routes.add_static("/".to_string(), "hello.html".to_string(), None).unwrap();
    let req = parse(&["GET / HTTP/1.1"]);
    let r = routes.apply(
        &req,
        &FsEvent::FileRead { code: ResponseCode::Okay, content: None },
    );
    assert!(matches!(r, Err(RouteError::FileUnreadable)));
    let resp = server_error_response();
    assert_eq!(resp.code(), ResponseCode::Internal_Server_Error);
    assert_eq!(resp.content(), "Internal Server Error");
}

#[test]
fn parse_failure_becomes_bad_request() {
    let lines: Vec<String> = vec!["BOGUS / HTTP/1.1".to_string(), "".to_string()];
    assert!(Request::parse(&lines).is_err());
    let resp = parse_failure_response();
    assert_eq!(resp.code(), ResponseCode::Bad_Request);
    assert_eq!(resp.content(), "Failed to parse");
    assert!(!resp.should_log());
    let wire = format_response(resp.code(), resp.content());
    assert_eq!(
        wire,
        "HTTP/1.1 400 Bad_Request\r\nContent-Length: 15\r\n\r\nFailed to parse"
    );
}

#[derive(Clone, Copy)]
struct FailingHandler;

impl Handler for FailingHandler {
    fn handle(&self, _request: &Request) -> Result<RouteResponse, HandlerError> {
        Err(HandlerError { message: "deliberate".to_string() })
    }
}

#[test]
fn failing_handler_error_passes_through() {
    let mut routes: Routes<FailingHandler> = Routes::new();
    routes
        .add_dynamic("/bad".to_string(), vec![Method::GET], FailingHandler)
        .unwrap();
    let req = parse(&["GET /bad HTTP/1.1"]);
    match routes.apply(&req, &FsEvent::Start) {
        Err(RouteError::Handler(e)) => assert_eq!(e.message, "deliberate"),
        _ => panic!("expected the handler's error"),
    }
}

#[test]
fn wrong_method_override_is_used() {
    let mut routes: Routes<FixedHandler> = Routes::new();
    routes.set_static_dir("files/".to_string());
    routes.set_405(Route::Plain("custom".to_string(), Some(ResponseCode::Method_Not_Allowed)));
    let req = parse(&["DELETE /files/x HTTP/1.1"]);
    let resp = respond(routes.apply(&req, &FsEvent::Start));
    assert_eq!(resp.content(), "custom");
    assert_eq!(resp.code(), ResponseCode::Method_Not_Allowed);
}

#[test]
fn root_boundary_contains_all_absolute_paths() {
    let mut routes: Routes<FixedHandler> = Routes::new();
    routes.set_static_dir("".to_string());
    let req = parse(&["GET /motd HTTP/1.1"]);
    let event = FsEvent::Probed {
        boundary: "/".to_string(),
        outcome: ProbeOutcome::Resolved {
            canonical: "/motd".to_string(),
            exists: true,
            is_dir: false,
        },
    };
    match routes.apply(&req, &event).unwrap() {
        FsAction::Read { path, .. } => assert_eq!(path, "/motd"),
        _ => panic!("expected a file read"),
    }
}
