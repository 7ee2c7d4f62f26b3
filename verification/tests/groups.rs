use http::header::{HeaderName, HeaderValue};
use weaver::frontend::middleware::{MiddlewareFn, Next, SharedMiddleware, Step};
use weaver::frontend::response::respond;
use weaver::frontend::routing::Group;
use weaver::server::{Error, Method, Route, Server, ServerConfig, StatusCode};

type TestServer = Server<&'static str, &'static str>;
type TestGroup = Group<&'static str, &'static str>;

/// The middleware of the chain from the outermost layer inwards, then the
/// handler.
fn order(next: &Next<&'static str, &'static str>) -> Vec<&'static str> {
    let mut seen = Vec::new();
    let mut depth = 0;
    loop {
        match next.step(depth) {
            Step::Through { middleware, then } => {
                seen.push(*middleware);
                depth = then;
            }
            Step::Handle { handler } => {
                seen.push(*handler);
                return seen;
            }
        }
    }
}

fn resolved(server: &TestServer, path: &str, method: Method) -> Vec<&'static str> {
    let (next, _) = server.resolve(path, &method).ok().unwrap();
    order(next)
}

#[test]
fn first_middleware_of_a_group_is_outermost() {
    let mut group = TestGroup::new();
    group
        .path("/g")
        .middleware(SharedMiddleware::new("m1"))
        .middleware(SharedMiddleware::new("m2"))
        .get("/h", "h");
    let mut server = TestServer::new(ServerConfig::default());
    assert!(group.is_mountable());
    assert!(server.group(&mut group).is_ok());
    assert_eq!(resolved(&server, "/g/h", Method::get()), vec!["m1", "m2", "h"]);
}

#[test]
fn outer_group_wraps_the_inner_group() {
    let mut inner = TestGroup::new();
    inner.middleware(SharedMiddleware::new("second")).route(Route::new("/echo", Method::get()), "handler");
    let mut combined = TestGroup::new();
    combined.path("/combined").middleware(SharedMiddleware::new("first"));
    assert!(combined.group(&mut inner).is_ok());

    let mut just_second = TestGroup::new();
    just_second
        .path("/just_second")
        .middleware(SharedMiddleware::new("second"))
        .route(Route::new("/echo", Method::get()), "handler");

    let mut root = TestGroup::default();
    assert!(root.group(&mut just_second).is_ok());
    assert!(root.group(&mut combined).is_ok());

    let mut server = TestServer::new(ServerConfig::default());
    assert!(server.group(&mut root).is_ok());
    assert_eq!(
        resolved(&server, "/combined/echo", Method::get()),
        vec!["first", "second", "handler"]
    );
    assert_eq!(resolved(&server, "/just_second/echo", Method::get()), vec!["second", "handler"]);
}

#[test]
fn nested_group_is_left_empty() {
    let mut inner = TestGroup::new();
    inner.path("/inner").get("/a", "a");
    let mut outer = TestGroup::new();
    assert!(outer.group(&mut inner).is_ok());
    let mut server = TestServer::new(ServerConfig::default());
    assert!(inner.is_mountable());
    assert!(server.group(&mut inner).is_ok());
    assert!(matches!(server.resolve("/inner/a", &Method::get()), Err(Error::NotFound)));
    assert!(server.group(&mut outer).is_ok());
    assert_eq!(resolved(&server, "/inner/a", Method::get()), vec!["a"]);
}

#[test]
fn base_paths_of_nested_groups_join() {
    let mut inner = TestGroup::new();
    inner.path("/v1/").get("/items/{id}", "item");
    let mut outer = TestGroup::new();
    outer.path("/api/");
    assert!(outer.group(&mut inner).is_ok());
    let mut server = TestServer::new(ServerConfig::default());
    assert!(server.group(&mut outer).is_ok());
    let (next, params) = server.resolve("/api/v1/items/9", &Method::get()).ok().unwrap();
    assert_eq!(order(next), vec!["item"]);
    assert_eq!(params.get("id"), Some("9"));
}

#[test]
fn path_of_a_group_is_replaced_by_the_next_one() {
    let mut group = TestGroup::new();
    group.path("/old").path("/new").get("/x", "x");
    let mut server = TestServer::new(ServerConfig::default());
    assert!(server.group(&mut group).is_ok());
    assert!(matches!(server.resolve("/old/x", &Method::get()), Err(Error::NotFound)));
    assert_eq!(resolved(&server, "/new/x", Method::get()), vec!["x"]);
}

#[test]
fn group_shorthands_register_their_methods() {
    let mut group = TestGroup::new();
    group
        .get("/m", "get")
        .post("/m", "post")
        .put("/m", "put")
        .patch("/m", "patch")
        .delete("/m", "delete")
        .connect("/m", "connect")
        .head("/m", "head")
        .options("/m", "options")
        .trace("/m", "trace");
    let mut server = TestServer::new(ServerConfig::default());
    assert!(server.group(&mut group).is_ok());
    assert_eq!(resolved(&server, "/m", Method::get()), vec!["get"]);
    assert_eq!(resolved(&server, "/m", Method::post()), vec!["post"]);
    assert_eq!(resolved(&server, "/m", Method::put()), vec!["put"]);
    assert_eq!(resolved(&server, "/m", Method::patch()), vec!["patch"]);
    assert_eq!(resolved(&server, "/m", Method::delete()), vec!["delete"]);
    assert_eq!(resolved(&server, "/m", Method::connect()), vec!["connect"]);
    assert_eq!(resolved(&server, "/m", Method::head()), vec!["head"]);
    assert_eq!(resolved(&server, "/m", Method::options()), vec!["options"]);
    assert_eq!(resolved(&server, "/m", Method::trace()), vec!["trace"]);
}

#[test]
fn first_refusal_ends_the_registration_of_a_group() {
    let mut group = TestGroup::new();
    group.get("/a", "a").get("/b", "b1").get("/b", "b2").get("/c", "c");
    let mut server = TestServer::new(ServerConfig::default());
    match server.group(&mut group) {
        Err(Error::RouteOccupied { path, method }) => {
            assert_eq!(path, "/b");
            assert_eq!(method.as_str(), "GET");
        }
        _ => panic!("the second route at /b is refused"),
    }
    assert_eq!(resolved(&server, "/a", Method::get()), vec!["a"]);
    assert_eq!(resolved(&server, "/b", Method::get()), vec!["b1"]);
    assert!(matches!(server.resolve("/c", &Method::get()), Err(Error::NotFound)));
}

#[test]
fn group_with_too_many_captures_is_not_mountable() {
    let mut group = TestGroup::new();
    group.path(&"/{a}".repeat(20)).get(&"/{b}".repeat(6), "h");
    assert!(!group.is_mountable());
    let mut fine = TestGroup::new();
    fine.path(&"/{a}".repeat(20)).get(&"/{b}".repeat(5), "h");
    assert!(fine.is_mountable());
}

#[test]
fn take_moves_the_group_out() {
    let mut group = TestGroup::new();
    group.path("/t").get("/x", "x");
    let mut taken = group.take();
    let mut server = TestServer::new(ServerConfig::default());
    assert!(server.group(&mut group).is_ok());
    assert!(matches!(server.resolve("/t/x", &Method::get()), Err(Error::NotFound)));
    assert!(server.group(&mut taken).is_ok());
    assert_eq!(resolved(&server, "/t/x", Method::get()), vec!["x"]);
}

#[test]
fn apply_middlewares_puts_the_stack_around_a_chain() {
    let mut group = TestGroup::new();
    group.middleware(SharedMiddleware::new("m1")).middleware(SharedMiddleware::new("m2"));
    let inner = SharedMiddleware::new("m3").wrap(Next::new("h"));
    let wrapped = group.apply_middlewares(inner);
    assert_eq!(wrapped.depth(), 3);
    assert_eq!(order(&wrapped), vec!["m1", "m2", "m3", "h"]);
}

#[test]
fn default_middleware_passes_requests_through() {
    let pass: SharedMiddleware<&'static str> = SharedMiddleware::default();
    assert!(pass.as_middleware().is_none());
    let chain = pass.wrap(SharedMiddleware::new("m").wrap(Next::new("h")));
    assert_eq!(chain.depth(), 2);
    assert_eq!(order(&chain), vec!["m", "h"]);
    let only_pass = SharedMiddleware::<&'static str>::default().wrap(Next::new("h"));
    assert_eq!(order(&only_pass), vec!["h"]);
}

#[test]
fn shared_middleware_and_chain_are_shared_not_copied() {
    let shared = SharedMiddleware::new("m");
    let copy = shared.share();
    assert_eq!(copy.as_middleware(), Some(&"m"));
    assert_eq!(shared.as_middleware(), Some(&"m"));
    let chain = shared.wrap(Next::new("h"));
    let second = chain.share();
    assert_eq!(order(&second), vec!["m", "h"]);
    assert_eq!(*second.handler(), "h");
    assert_eq!(order(&chain), vec!["m", "h"]);
}

#[test]
fn step_from_a_later_depth_skips_the_outer_layers() {
    let chain = SharedMiddleware::new("m1").wrap(SharedMiddleware::new("m2").wrap(Next::new("h")));
    match chain.step(1) {
        Step::Through { middleware, then } => {
            assert_eq!(*middleware, "m2");
            assert_eq!(then, 2);
        }
        Step::Handle { .. } => panic!("a layer is left"),
    }
    assert!(matches!(chain.step(2), Step::Handle { handler } if *handler == "h"));
}

#[test]
fn middleware_function_is_kept() {
    let middleware: MiddlewareFn<u8, (), (), ()> = MiddlewareFn::new(7u8);
    assert_eq!(middleware.func, 7);
    assert!(middleware.is_admissible());
}

/// Runs a chain on a request as a server would: `first` takes the header
/// `x-must-be-unset` off the request and tells in the response whether it
/// was set; `second` rejects a request that carries the header.
fn run(
    next: &Next<&'static str, &'static str>,
    depth: usize,
    mut request: weaver::server::Request,
) -> weaver::server::Response {
    match next.step(depth) {
        Step::Through { middleware, then } => match *middleware {
            "first" => {
                let mut headers = request.take_headers();
                let was_set = headers.remove("x-must-be-unset").is_some();
                request.replace_headers(headers);
                let inner = run(next, then, request);
                let flag = if was_set { "true" } else { "false" };
                respond((inner, (HeaderName::from_static("x-was-set"), HeaderValue::from_static(flag))))
            }
            "second" => {
                if request.headers().contains_key("x-must-be-unset") {
                    respond(StatusCode::bad_request())
                } else {
                    run(next, then, request)
                }
            }
            _ => panic!("no such middleware"),
        },
        Step::Handle { .. } => respond(StatusCode::ok()),
    }
}

fn layered_server() -> TestServer {
    let mut inner = TestGroup::new();
    inner.middleware(SharedMiddleware::new("second")).get("/echo", "handler");
    let mut combined = TestGroup::new();
    combined.path("/combined").middleware(SharedMiddleware::new("first"));
    assert!(combined.group(&mut inner).is_ok());
    let mut just_second = TestGroup::new();
    just_second.path("/just_second").middleware(SharedMiddleware::new("second")).get("/echo", "handler");
    let mut server = TestServer::new(ServerConfig::default());
    assert!(server.group(&mut combined).is_ok());
    assert!(server.group(&mut just_second).is_ok());
    server
}

fn flagged_request(path: &str) -> weaver::server::Request {
    let mut headers = http::HeaderMap::new();
    headers.insert(
        http::header::HeaderName::from_static("x-must-be-unset"),
        http::header::HeaderValue::from_static("1"),
    );
    weaver::server::Request::new(
        Method::get(),
        path.to_string(),
        headers,
        http::Extensions::new(),
        weaver::server::Body::empty(),
    )
}

#[test]
fn outer_middleware_sees_the_request_first_and_the_response_last() {
    let server = layered_server();
    let (next, _) = server.resolve("/combined/echo", &Method::get()).ok().unwrap();
    let response = run(next, 0, flagged_request("/combined/echo"));
    assert_eq!(response.status.as_u16(), 200);
    assert_eq!(response.headers.get("x-was-set").unwrap(), "true");
}

#[test]
fn inner_middleware_alone_rejects_the_request() {
    let server = layered_server();
    let (next, _) = server.resolve("/just_second/echo", &Method::get()).ok().unwrap();
    let response = run(next, 0, flagged_request("/just_second/echo"));
    assert_eq!(response.status.as_u16(), 400);
    assert!(response.headers.get("x-was-set").is_none());
}
