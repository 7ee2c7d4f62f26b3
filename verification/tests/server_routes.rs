use weaver::frontend::middleware::Next;
use weaver::server::table::{fits_brace_limit, Found};
use weaver::server::{registration_outcome, select_entry};
use weaver::utils::SmallMap;
use weaver::server::{BindParams, Error, Method, Route, Server, ServerConfig};

fn server() -> Server<u32, u32> {
    Server::new(ServerConfig::default())
}

fn handler_at(server: &Server<u32, u32>, path: &str, method: Method) -> Result<u32, Error> {
    server.resolve(path, &method).map(|(next, _)| *next.handler())
}

#[test]
fn registered_route_answers_for_its_path_and_method() {
    let mut server = server();
    assert!(server.route(Route::new("/echo", Method::post()), 1).is_ok());
    assert_eq!(handler_at(&server, "/echo", Method::post()).ok(), Some(1));
}

#[test]
fn second_registration_is_refused_as_occupied() {
    let mut server = server();
    assert!(server.route(Route::new("/echo", Method::post()), 1).is_ok());
    match server.route(Route::new("/echo", Method::post()), 2) {
        Err(Error::RouteOccupied { path, method }) => {
            assert_eq!(path, "/echo");
            assert_eq!(method.as_str(), "POST");
        }
        _ => panic!("the route is occupied"),
    }
}

#[test]
fn refusal_as_occupied_leaves_every_route_as_it_was() {
    let mut server = server();
    assert!(server.get("/methods", 1).is_ok());
    assert!(server.post("/methods", 2).is_ok());
    assert!(server.get("/other", 3).is_ok());
    assert!(matches!(server.get("/methods", 4), Err(Error::RouteOccupied { .. })));
    assert_eq!(handler_at(&server, "/methods", Method::get()).ok(), Some(1));
    assert_eq!(handler_at(&server, "/methods", Method::post()).ok(), Some(2));
    assert_eq!(handler_at(&server, "/other", Method::get()).ok(), Some(3));
    assert!(server.put("/methods", 5).is_ok());
    assert_eq!(handler_at(&server, "/methods", Method::put()).ok(), Some(5));
}

#[test]
fn refusal_as_invalid_leaves_every_route_as_it_was() {
    let mut server = server();
    assert!(server.get("/a/{x}", 1).is_ok());
    assert!(matches!(server.get("/a/{y}", 2), Err(Error::InvalidPath { .. })));
    assert!(matches!(server.get("/b/{", 3), Err(Error::InvalidPath { .. })));
    assert_eq!(handler_at(&server, "/a/7", Method::get()).ok(), Some(1));
    assert!(server.post("/a/{x}", 4).is_ok());
    assert_eq!(handler_at(&server, "/a/7", Method::post()).ok(), Some(4));
    assert!(matches!(handler_at(&server, "/b/{", Method::get()), Err(Error::NotFound)));
}

#[test]
fn doubled_braces_stand_for_braces_of_the_path() {
    let mut server = server();
    assert!(server.get("/{{a}}", 1).is_ok());
    assert!(server.get("/{x}", 2).is_ok());
    assert!(matches!(server.get("/{{a}}", 3), Err(Error::RouteOccupied { .. })));
    assert_eq!(handler_at(&server, "/{a}", Method::get()).ok(), Some(1));
    let (next, params) = server.resolve("/other", &Method::get()).ok().unwrap();
    assert_eq!(*next.handler(), 2);
    assert_eq!(params.get("x"), Some("other"));
}

#[test]
fn empty_pattern_is_registered_and_answers_to_the_empty_path() {
    let mut server = server();
    assert!(matches!(handler_at(&server, "", Method::get()), Err(Error::NotFound)));
    assert!(server.get("", 1).is_ok());
    assert!(server.get("/", 2).is_ok());
    assert!(server.get("/a/{x}", 3).is_ok());
    assert!(server.post("", 4).is_ok());
    assert!(matches!(server.get("", 5), Err(Error::RouteOccupied { .. })));
    let (next, params) = server.resolve("", &Method::get()).ok().unwrap();
    assert_eq!(*next.handler(), 1);
    assert!(params.is_empty());
    assert_eq!(handler_at(&server, "", Method::post()).ok(), Some(4));
    assert!(matches!(handler_at(&server, "", Method::put()), Err(Error::MethodNotAllowed)));
    assert_eq!(handler_at(&server, "/", Method::get()).ok(), Some(2));
    assert_eq!(handler_at(&server, "/a/7", Method::get()).ok(), Some(3));
}

#[test]
fn empty_pattern_registered_last_keeps_the_others() {
    let mut server = server();
    assert!(server.get("/first", 1).is_ok());
    assert!(server.get("", 2).is_ok());
    assert!(server.get("/second", 3).is_ok());
    assert_eq!(handler_at(&server, "/first", Method::get()).ok(), Some(1));
    assert_eq!(handler_at(&server, "", Method::get()).ok(), Some(2));
    assert_eq!(handler_at(&server, "/second", Method::get()).ok(), Some(3));
}

#[test]
fn doubled_brace_behind_a_capture_counts_as_an_opening_brace() {
    let mut beyond = String::from("/{ab}");
    beyond.push_str(&"{{cd}".repeat(25));
    assert!(!fits_brace_limit(&beyond));
    let mut within = String::from("/{ab}");
    within.push_str(&"{{cd}".repeat(12));
    assert!(fits_brace_limit(&within));
    let mut server = server();
    assert!(server.get("/kept", 1).is_ok());
    let outcome = server.get(&within, 2).map(|_| ());
    assert!(matches!(outcome, Ok(()) | Err(Error::InvalidPath { .. })));
    let outcome = server.get("/{ab}{{cd}", 3).map(|_| ());
    assert!(matches!(outcome, Ok(()) | Err(Error::InvalidPath { .. })));
    assert_eq!(handler_at(&server, "/kept", Method::get()).ok(), Some(1));
}

#[test]
fn pattern_with_an_open_capture_is_invalid() {
    let mut server = server();
    match server.get("/broken/{id", 1) {
        Err(Error::InvalidPath { path, .. }) => assert_eq!(path, "/broken/{id"),
        _ => panic!("the pattern is invalid"),
    }
    assert!(matches!(handler_at(&server, "/broken/{id", Method::get()), Err(Error::NotFound)));
}

#[test]
fn pattern_that_conflicts_with_another_is_invalid() {
    let mut server = server();
    assert!(server.get("/users/{id}", 1).is_ok());
    assert!(matches!(server.get("/users/{name}", 2), Err(Error::InvalidPath { .. })));
    assert_eq!(handler_at(&server, "/users/7", Method::get()).ok(), Some(1));
}

#[test]
fn unknown_path_is_not_found() {
    let mut server = server();
    assert!(server.get("/echo", 1).is_ok());
    assert!(matches!(handler_at(&server, "/nope", Method::get()), Err(Error::NotFound)));
}

#[test]
fn unknown_method_is_not_allowed() {
    let mut server = server();
    assert!(server.get("/methods", 1).is_ok());
    assert!(server.post("/methods", 2).is_ok());
    assert!(matches!(
        handler_at(&server, "/methods", Method::delete()),
        Err(Error::MethodNotAllowed)
    ));
}

#[test]
fn methods_share_a_path() {
    let mut server = server();
    assert!(server.get("/methods", 1).is_ok());
    assert!(server.post("/methods", 2).is_ok());
    assert!(server.route(Route::new("/methods", Method::new("VOROJBA")), 3).is_ok());
    assert!(server
        .route(Route::new("/methods", Method::new("ONE_HELL_LONG_VOROJBA_EXTENSION")), 4)
        .is_ok());
    assert_eq!(handler_at(&server, "/methods", Method::get()).ok(), Some(1));
    assert_eq!(handler_at(&server, "/methods", Method::post()).ok(), Some(2));
    assert_eq!(handler_at(&server, "/methods", Method::new("VOROJBA")).ok(), Some(3));
    assert_eq!(
        handler_at(&server, "/methods", Method::new("ONE_HELL_LONG_VOROJBA_EXTENSION")).ok(),
        Some(4)
    );
}

#[test]
fn every_shorthand_registers_its_method() {
    let mut server = server();
    assert!(server.get("/m", 1).is_ok());
    assert!(server.post("/m", 2).is_ok());
    assert!(server.put("/m", 3).is_ok());
    assert!(server.patch("/m", 4).is_ok());
    assert!(server.delete("/m", 5).is_ok());
    assert!(server.connect("/m", 6).is_ok());
    assert!(server.head("/m", 7).is_ok());
    assert!(server.options("/m", 8).is_ok());
    assert!(server.trace("/m", 9).is_ok());
    assert_eq!(handler_at(&server, "/m", Method::get()).ok(), Some(1));
    assert_eq!(handler_at(&server, "/m", Method::post()).ok(), Some(2));
    assert_eq!(handler_at(&server, "/m", Method::put()).ok(), Some(3));
    assert_eq!(handler_at(&server, "/m", Method::patch()).ok(), Some(4));
    assert_eq!(handler_at(&server, "/m", Method::delete()).ok(), Some(5));
    assert_eq!(handler_at(&server, "/m", Method::connect()).ok(), Some(6));
    assert_eq!(handler_at(&server, "/m", Method::head()).ok(), Some(7));
    assert_eq!(handler_at(&server, "/m", Method::options()).ok(), Some(8));
    assert_eq!(handler_at(&server, "/m", Method::trace()).ok(), Some(9));
}

#[test]
fn registrations_chain() {
    let mut server = server();
    let chained = server.get("/a", 1).and_then(|s| s.post("/a", 2)).and_then(|s| s.get("/b", 3));
    assert!(chained.is_ok());
    assert_eq!(handler_at(&server, "/a", Method::post()).ok(), Some(2));
    assert_eq!(handler_at(&server, "/b", Method::get()).ok(), Some(3));
}

#[test]
fn captures_hold_the_segments_of_the_path() {
    let mut server = server();
    assert!(server.get("/path/{id}/content/{a}/{b}", 1).is_ok());
    let (next, params) = server.resolve("/path/42/content/x/y", &Method::get()).ok().unwrap();
    assert_eq!(*next.handler(), 1);
    assert_eq!(params.len(), 3);
    assert_eq!(params.get("id"), Some("42"));
    assert_eq!(params.get("a"), Some("x"));
    assert_eq!(params.get("b"), Some("y"));
    assert_eq!(params.get("c"), None);
    assert_eq!(params.pair(0), ("id", "42"));
    assert_eq!(params.pair(2), ("b", "y"));
}

#[test]
fn literal_segment_beats_capture() {
    let mut server = server();
    assert!(server.get("/users/{id}", 1).is_ok());
    assert!(server.get("/users/me", 2).is_ok());
    let (next, params) = server.resolve("/users/me", &Method::get()).ok().unwrap();
    assert_eq!(*next.handler(), 2);
    assert!(params.is_empty());
    let (next, params) = server.resolve("/users/you", &Method::get()).ok().unwrap();
    assert_eq!(*next.handler(), 1);
    assert_eq!(params.get("id"), Some("you"));
}

#[test]
fn resolution_does_not_depend_on_the_order_of_registration() {
    let mut first = server();
    assert!(first.get("/users/{id}", 1).is_ok());
    assert!(first.get("/users/me", 2).is_ok());
    let mut second = server();
    assert!(second.get("/users/me", 2).is_ok());
    assert!(second.get("/users/{id}", 1).is_ok());
    for path in ["/users/me", "/users/7", "/nope"] {
        assert_eq!(
            handler_at(&first, path, Method::get()).ok(),
            handler_at(&second, path, Method::get()).ok()
        );
    }
}

#[test]
fn mounted_chain_is_resolved_with_its_layers() {
    let mut server = server();
    let chain = weaver::frontend::middleware::SharedMiddleware::new(5u32).wrap(Next::new(1u32));
    assert!(server.mount(Route::new("/wrapped", Method::get()), chain).is_ok());
    let (next, _) = server.resolve("/wrapped", &Method::get()).ok().unwrap();
    assert_eq!(next.depth(), 1);
    assert_eq!(*next.handler(), 1);
}

#[test]
fn server_is_named_after_its_address_by_default() {
    let server = server();
    assert_eq!(server.name(), "weaver_http_server_127.0.0.1_8000");
    assert_eq!(server.config().bind.port, 8000);
    assert_eq!(server.config().bind.host, "127.0.0.1");
}

#[test]
fn server_keeps_the_name_it_is_given() {
    let cfg = ServerConfig {
        bind: BindParams { host: "0.0.0.0".to_string(), port: 18989 },
        name: Some("front".to_string()),
    };
    let server: Server<u32, u32> = Server::new(cfg);
    assert_eq!(server.name(), "front");
}

#[test]
fn default_name_holds_host_and_port() {
    let cfg = ServerConfig {
        bind: BindParams { host: "example.org".to_string(), port: 65535 },
        name: None,
    };
    assert_eq!(weaver::server::config::name_of(&cfg), "weaver_http_server_example.org_65535");
    let zero = ServerConfig { bind: BindParams { host: String::new(), port: 0 }, name: None };
    assert_eq!(weaver::server::config::name_of(&zero), "weaver_http_server__0");
}

#[test]
fn default_address_is_local_port_8000() {
    let bind = BindParams::default();
    assert_eq!(bind.host, "127.0.0.1");
    assert_eq!(bind.port, 8000);
    let copy = bind.duplicate();
    assert_eq!(copy.host, "127.0.0.1");
    assert_eq!(copy.port, 8000);
    let cfg = ServerConfig::default().duplicate();
    assert!(cfg.name.is_none());
    assert_eq!(cfg.bind.port, 8000);
}

#[test]
fn route_has_get_as_its_default_method() {
    let route = Route::default();
    assert_eq!(route.path, "");
    assert_eq!(route.method.as_str(), "GET");
    let route = route.path("/x").method(Method::put());
    assert_eq!(route.path, "/x");
    assert_eq!(route.method.as_str(), "PUT");
    let copy = route.duplicate();
    assert_eq!(copy.path, "/x");
    assert_eq!(copy.method.as_str(), "PUT");
}

#[test]
fn brace_limit_is_twenty_five() {
    let within = "/{a}".repeat(25);
    let beyond = "/{a}".repeat(26);
    assert!(fits_brace_limit(&within));
    assert!(!fits_brace_limit(&beyond));
    assert!(fits_brace_limit(""));
    assert!(fits_brace_limit("/caf\u{e9}/{id}"));
    assert!(fits_brace_limit(&"}".repeat(40)));
    assert!(fits_brace_limit(&"{{".repeat(12)));
    assert!(!fits_brace_limit(&"{{".repeat(13)));
    assert!(fits_brace_limit(&format!("{}{}", "/{{x}}".repeat(5), "/{a}".repeat(15))));
    assert!(!fits_brace_limit(&format!("{}{}", "/{{x}}".repeat(5), "/{a}".repeat(16))));
    assert!(!fits_brace_limit(&"/{".repeat(26)));
}

#[test]
fn pattern_at_the_capture_limit_is_registered() {
    let mut pattern = String::new();
    let mut path = String::new();
    for i in 0..25 {
        pattern.push_str(&format!("/{{p{}}}", i));
        path.push_str(&format!("/v{}", i));
    }
    let mut server = server();
    assert!(fits_brace_limit(&pattern));
    assert!(server.get(&pattern, 1).is_ok());
    let (_, params) = server.resolve(&path, &Method::get()).ok().unwrap();
    assert_eq!(params.len(), 25);
    assert_eq!(params.get("p24"), Some("v24"));
}

#[test]
fn entry_is_selected_from_what_the_matcher_found() {
    let mut bucket = SmallMap::new();
    bucket.insert(Method::get(), 4);
    bucket.insert(Method::post(), 5);
    let buckets = vec![SmallMap::new(), bucket];
    let captures = vec![("id".to_string(), "42".to_string())];

    assert!(matches!(select_entry(None, &buckets, &Method::get()), Err(Error::NotFound)));
    let found = Found { number: 1, params: captures.clone() };
    assert!(matches!(
        select_entry(Some(found), &buckets, &Method::delete()),
        Err(Error::MethodNotAllowed)
    ));
    let found = Found { number: 0, params: captures.clone() };
    assert!(matches!(
        select_entry(Some(found), &buckets, &Method::post()),
        Err(Error::MethodNotAllowed)
    ));
    let found = Found { number: 1, params: captures.clone() };
    let (index, params) = select_entry(Some(found), &buckets, &Method::post()).ok().unwrap();
    assert_eq!(index, 5);
    assert_eq!(params.get("id"), Some("42"));

    assert!(registration_outcome("/x".to_string(), Ok(())).is_ok());
    match registration_outcome("/x/{".to_string(), Err(matchit::InsertError::InvalidParam)) {
        Err(Error::InvalidPath { path, error }) => {
            assert_eq!(path, "/x/{");
            assert_eq!(error, matchit::InsertError::InvalidParam);
        }
        _ => panic!("the pattern was refused"),
    }
}
