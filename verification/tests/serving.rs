use http::HeaderMap;
use weaver::frontend::middleware::{Next, SharedMiddleware};
use weaver::runtime::TarantoolHyperExecutor;
use weaver::server::serve::{connection_outcome, Dispatch, ListenerEvent, ListenerStep};
use weaver::server::{
    error_with_causes, BindParams, Body, Error, Method, Request, Route, Server, ServerConfig,
    ServerFiber,
};

fn fiber() -> ServerFiber<&'static str, &'static str> {
    let cfg = ServerConfig {
        bind: BindParams { host: "127.0.0.1".to_string(), port: 18989 },
        name: None,
    };
    let mut server: Server<&'static str, &'static str> = Server::new(cfg);
    assert!(server.post("/echo", "echo").is_ok());
    assert!(server.get("/path/{id}/content/{a}/{b}", "path").is_ok());
    assert!(server.get("/methods", "get").is_ok());
    assert!(server.post("/methods", "post").is_ok());
    assert!(server.route(Route::new("/methods", Method::new("VOROJBA")), "extension_first_endpoint").is_ok());
    let layered = SharedMiddleware::new("first").wrap(Next::new("layered"));
    assert!(server.mount(Route::new("/layered", Method::get()), layered).is_ok());
    server.into_fiber()
}

fn request(method: Method, path: &str) -> Request {
    Request::new(method, path.to_string(), HeaderMap::new(), http::Extensions::new(), Body::empty())
}

fn answer_of(dispatch: Dispatch<'_, &'static str, &'static str>) -> (u16, Vec<u8>) {
    match dispatch {
        Dispatch::Answer { mut response } => {
            (response.status.as_u16(), response.body.take_frame().unwrap())
        }
        Dispatch::Run { .. } => panic!("no chain answers"),
    }
}

#[test]
fn fiber_carries_name_and_address_of_the_server() {
    let fiber = fiber();
    assert_eq!(fiber.name, "weaver_http_server_127.0.0.1_18989");
    assert_eq!(fiber.bind.host, "127.0.0.1");
    assert_eq!(fiber.bind.port, 18989);
    assert_eq!(fiber.processor.log_ctx(), "weaver_http_server_127.0.0.1_18989");
}

#[test]
fn helper_fibers_are_named_after_the_server() {
    assert_eq!(TarantoolHyperExecutor::new("front").child_name(), "front-child");
    assert_eq!(TarantoolHyperExecutor::new("").child_name(), "-child");
    let fiber = fiber();
    let executor = fiber.processor.executor();
    assert_eq!(executor.child_name(), "weaver_http_server_127.0.0.1_18989-child");
    assert_eq!(executor.duplicate().child_name(), executor.child_name());
}

#[test]
fn request_is_dispatched_to_its_chain_with_captures() {
    let fiber = fiber();
    match fiber.processor.dispatch(request(Method::get(), "/path/42/content/x/y")) {
        Dispatch::Run { next, request } => {
            assert_eq!(*next.handler(), "path");
            assert_eq!(request.params().get("id"), Some("42"));
            assert_eq!(request.params().get("a"), Some("x"));
            assert_eq!(request.params().get("b"), Some("y"));
            assert_eq!(request.path(), "/path/42/content/x/y");
        }
        Dispatch::Answer { .. } => panic!("the path is registered"),
    }
}

#[test]
fn extension_method_is_dispatched() {
    let fiber = fiber();
    match fiber.processor.dispatch(request(Method::new("VOROJBA"), "/methods")) {
        Dispatch::Run { next, request } => {
            assert_eq!(*next.handler(), "extension_first_endpoint");
            assert_eq!(request.method().as_str(), "VOROJBA");
        }
        Dispatch::Answer { .. } => panic!("the method is registered"),
    }
}

#[test]
fn unknown_path_is_answered_with_404() {
    let fiber = fiber();
    let (status, body) = answer_of(fiber.processor.dispatch(request(Method::get(), "/nope")));
    assert_eq!(status, 404);
    assert_eq!(body, b"404 Not Found".to_vec());
}

#[test]
fn unknown_method_is_answered_with_405() {
    let fiber = fiber();
    let (status, body) = answer_of(fiber.processor.dispatch(request(Method::delete(), "/methods")));
    assert_eq!(status, 405);
    assert_eq!(body, b"405 Method Not Allowed".to_vec());
}

#[test]
fn process_request_gives_the_lookup_errors() {
    let fiber = fiber();
    assert!(matches!(
        fiber.processor.process_request(request(Method::get(), "/nope")),
        Err(Error::NotFound)
    ));
    assert!(matches!(
        fiber.processor.process_request(request(Method::put(), "/echo")),
        Err(Error::MethodNotAllowed)
    ));
    let (next, handed) =
        fiber.processor.process_request(request(Method::get(), "/layered")).ok().unwrap();
    assert_eq!(next.depth(), 1);
    assert!(handed.params().is_empty());
}

#[test]
fn handle_error_answers_lookup_errors_only() {
    let fiber = fiber();
    let processor = fiber.processor.share();
    let response = processor.handle_error(Error::NotFound).ok().unwrap();
    assert_eq!(response.status.as_u16(), 404);
    assert!(response.headers.is_empty());
    let response = processor.handle_error(Error::MethodNotAllowed).ok().unwrap();
    assert_eq!(response.status.as_u16(), 405);
    assert!(matches!(
        processor.handle_error(Error::InitFailed("x".to_string())),
        Err(Error::InitFailed(reason)) if reason == "x"
    ));
    assert!(matches!(
        processor.handle_error(Error::ServeExited("y".to_string())),
        Err(Error::ServeExited(_))
    ));
    assert!(matches!(
        processor.handle_error(Error::ConnectionError("z".to_string())),
        Err(Error::ConnectionError(_))
    ));
    assert!(matches!(
        processor.handle_error(Error::RouteOccupied { path: "/".to_string(), method: Method::get() }),
        Err(Error::RouteOccupied { .. })
    ));
}

#[test]
fn errors_have_their_texts() {
    assert_eq!(Error::InitFailed("a".to_string()).message(), "failed to init server: a");
    assert_eq!(
        Error::ServeExited("b".to_string()).message(),
        "server unexpectedly exited from serving: b"
    );
    assert_eq!(
        Error::ConnectionError("c".to_string()).message(),
        "unexpected error occurred with connection: c"
    );
    assert_eq!(Error::NotFound.message(), "404 Not Found");
    assert_eq!(Error::MethodNotAllowed.message(), "405 Method Not Allowed");
    assert_eq!(
        Error::RouteOccupied { path: "/echo".to_string(), method: Method::post() }.message(),
        "route /echo is already occupied for method POST"
    );
    assert_eq!(
        Error::InvalidPath { path: "/x/{".to_string(), error: matchit::InsertError::InvalidParam }
            .message(),
        "invalid path, unable to register: /x/{: Parameters must be registered with a valid name"
    );
}

#[test]
fn invalid_path_error_carries_what_the_matcher_said() {
    let mut server: Server<u8, u8> = Server::new(ServerConfig::default());
    assert!(server.get("/a/{x}", 1).is_ok());
    let error = server.get("/a/{y}", 2).err().unwrap();
    let expected = format!(
        "invalid path, unable to register: /a/{{y}}: {}",
        matchit::InsertError::Conflict { with: "/a/{x}".to_string() }
    );
    assert_eq!(error.message(), expected);
}

#[test]
fn causes_are_joined_by_arrows() {
    assert_eq!(error_with_causes(&vec![]), "");
    assert_eq!(error_with_causes(&vec!["top".to_string()]), "top");
    assert_eq!(
        error_with_causes(&vec!["top".to_string(), "middle".to_string(), "root".to_string()]),
        "top -> middle -> root"
    );
}

#[test]
fn connection_that_ended_with_an_error_exits_serving() {
    assert!(connection_outcome(&vec![]).is_ok());
    match connection_outcome(&vec!["hyper failed".to_string(), "broken pipe".to_string()]) {
        Err(Error::ServeExited(reason)) => {
            assert_eq!(reason, "serve process resulted in error: hyper failed -> broken pipe");
        }
        _ => panic!("the connection ended with an error"),
    }
}

#[test]
fn main_fiber_goes_on_until_a_failure() {
    let fiber = fiber();
    assert!(matches!(fiber.on_event(ListenerEvent::Bound), Ok(ListenerStep::Accept)));
    assert!(matches!(fiber.on_event(ListenerEvent::Accepted), Ok(ListenerStep::Serve)));
    assert!(matches!(fiber.on_event(ListenerEvent::Spawned), Ok(ListenerStep::Accept)));
    match fiber.on_event(ListenerEvent::BindFailed("in use".to_string())) {
        Err(Error::InitFailed(reason)) => {
            assert_eq!(reason, "failed to bind to needed address: in use")
        }
        _ => panic!("binding failed"),
    }
    match fiber.on_event(ListenerEvent::AcceptFailed("reset".to_string())) {
        Err(Error::ConnectionError(reason)) => assert_eq!(reason, "reset"),
        _ => panic!("accepting failed"),
    }
    match fiber.on_event(ListenerEvent::SpawnFailed("no memory".to_string())) {
        Err(Error::ConnectionError(reason)) => {
            assert_eq!(reason, "unable to spawn fiber for connection handle: no memory")
        }
        _ => panic!("spawning failed"),
    }
}

#[test]
fn defer_reports_a_main_fiber_that_did_not_start() {
    assert!(ServerFiber::<u8, u8>::deferred(None).is_ok());
    match ServerFiber::<u8, u8>::deferred(Some("limit".to_string())) {
        Err(Error::InitFailed(reason)) => assert_eq!(reason, "failed to create main fiber: limit"),
        _ => panic!("the fiber did not start"),
    }
}

#[test]
fn numbers_are_written_in_decimal() {
    assert_eq!(weaver::text::decimal_string(0), "0");
    assert_eq!(weaver::text::decimal_string(7), "7");
    assert_eq!(weaver::text::decimal_string(10), "10");
    assert_eq!(weaver::text::decimal_string(8000), "8000");
    assert_eq!(weaver::text::decimal_string(18989), "18989");
    assert_eq!(weaver::text::decimal_string(65535), "65535");
    assert_eq!(weaver::text::joined("a", "b"), "ab");
}
