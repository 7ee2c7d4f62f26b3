use http::header::{HeaderName, HeaderValue};
use http::HeaderMap;
use weaver::frontend::extras::json::{collection_failed, decoding_failed, read_json, Json};
use weaver::frontend::handler::{Arguments, Handler, HandlerFn};
use weaver::frontend::request::json::JsonBody;
use weaver::frontend::request::path::Path;
use weaver::frontend::request::{FromRequest, Headers, Request, RequestExtensions};
use weaver::frontend::response::error::InternalError;
use weaver::server::{Body, Method, Params, StatusCode};

fn request(path: &str, body: &str) -> Request {
    let mut headers = HeaderMap::new();
    headers.insert(HeaderName::from_static("x-add-value"), HeaderValue::from_static("3"));
    let mut extensions = http::Extensions::new();
    extensions.insert(5i32);
    Request::new(Method::post(), path.to_string(), headers, extensions, Body::from_text(body))
}

fn captures(pairs: &[(&str, &str)]) -> Params {
    Params::from_pairs(pairs.iter().map(|(k, v)| (k.to_string(), v.to_string())).collect())
}

fn body_of(mut response: weaver::server::Response) -> Vec<u8> {
    response.body.take_frame().unwrap()
}

#[test]
fn new_request_is_not_taken_and_has_no_captures() {
    let request = request("/echo", "hello");
    assert!(!request.is_taken());
    assert_eq!(request.method().as_str(), "POST");
    assert_eq!(request.path(), "/echo");
    assert!(request.params().is_empty());
    assert_eq!(request.headers().len(), 1);
    assert_eq!(request.extensions().get::<i32>(), Some(&5));
}

#[test]
fn headers_extractor_moves_the_headers_out() {
    let mut request = request("/", "");
    let Headers(headers) = Headers::from_request(&mut request).ok().unwrap();
    assert_eq!(headers.get("x-add-value").unwrap(), "3");
    assert!(request.headers().is_empty());
    let again = HeaderMap::from_request(&mut request).ok().unwrap();
    assert!(again.is_empty());
    assert!(!Headers::consumes_request());
}

#[test]
fn extensions_extractor_moves_the_extensions_out() {
    let mut request = request("/", "");
    let RequestExtensions(extensions) = RequestExtensions::from_request(&mut request).ok().unwrap();
    assert_eq!(extensions.get::<i32>(), Some(&5));
    assert!(request.extensions().is_empty());
    let again = http::Extensions::from_request(&mut request).ok().unwrap();
    assert!(again.is_empty());
}

#[test]
fn path_extractor_yields_the_captures_once() {
    let mut request =
        request("/path/42/content/x/y", "").with_params(captures(&[("id", "42"), ("a", "x"), ("b", "y")]));
    let Path(first) = Path::from_request(&mut request).ok().unwrap();
    assert_eq!(first.len(), 3);
    assert_eq!(first.get("id"), Some("42"));
    assert_eq!(first.get("a"), Some("x"));
    assert_eq!(first.get("b"), Some("y"));
    let Path(second) = Path::from_request(&mut request).ok().unwrap();
    assert!(second.is_empty());
    assert_eq!(second.get("id"), None);
}

#[test]
fn captures_of_the_same_name_give_the_last() {
    let params = captures(&[("id", "1"), ("other", "x"), ("id", "2")]);
    assert_eq!(params.get("id"), Some("2"));
    assert_eq!(params.get("other"), Some("x"));
    let pairs = params.into_pairs();
    assert_eq!(
        pairs,
        vec![
            ("id".to_string(), "1".to_string()),
            ("other".to_string(), "x".to_string()),
            ("id".to_string(), "2".to_string())
        ]
    );
    let mut params = captures(&[("k", "v")]);
    let taken = params.take();
    assert_eq!(taken.len(), 1);
    assert!(params.is_empty());
    assert!(Params::new().is_empty());
}

#[test]
fn json_extractor_reads_the_body() {
    let mut request = request("/json", "{\"a\":[1,2],\"b\":null}");
    let Json(value) = Json::<serde_json::Value>::from_request(&mut request).ok().unwrap();
    assert_eq!(value["a"][1], serde_json::Value::from(2));
    assert!(value["b"].is_null());
    assert_eq!(request.take_body(), Vec::<u8>::new());
    let mut request2 = super_request();
    let JsonBody(value) = JsonBody::<serde_json::Value>::from_request(&mut request2).ok().unwrap();
    assert_eq!(value, serde_json::Value::from("text"));
}

fn super_request() -> Request {
    request("/json", "\"text\"")
}

#[test]
fn json_extractor_rejects_what_is_no_json() {
    let mut request = request("/json", "{oops");
    let rejection = Json::<serde_json::Value>::from_request(&mut request).err().unwrap();
    assert!(rejection.0.starts_with("failed to deserialize data: "));
    assert!(rejection.0.len() > "failed to deserialize data: ".len());
    let response = weaver::frontend::response::respond(rejection);
    assert_eq!(response.status.as_u16(), 500);
    assert_eq!(
        response.headers.get("content-type").unwrap(),
        "text/plain; charset=utf-8"
    );
}

#[test]
fn json_extractor_finds_an_empty_body_after_the_body_was_read() {
    let mut request = request("/json", "1");
    assert!(Json::<serde_json::Value>::from_request(&mut request).is_ok());
    let rejection = Json::<serde_json::Value>::from_request(&mut request).err().unwrap();
    assert!(rejection.0.starts_with("failed to deserialize data: "));
}

#[test]
fn collection_failure_is_told_apart_from_bad_json() {
    let read = read_json(Err("connection reset".to_string()));
    assert_eq!(read.err(), Some("failed to collect body: connection reset".to_string()));
    let read = read_json(Ok(b"[true]".to_vec()));
    assert_eq!(read.ok().unwrap().0, serde_json::Value::from(vec![true]));
    let read = read_json(Ok(Vec::new()));
    assert!(read.err().unwrap().starts_with("failed to deserialize data: "));
}

#[test]
fn json_round_trips_a_value() {
    let text = "{\"a\":1,\"b\":[true,null,\"x\"],\"c\":{\"d\":2.5}}";
    let mut request = request("/json", text);
    let Json(value) = Json::<serde_json::Value>::from_request(&mut request).ok().unwrap();
    let response = weaver::frontend::response::respond(Json(value.clone()));
    let bytes = body_of(response);
    let again: serde_json::Value = serde_json::from_slice(&bytes).unwrap();
    assert_eq!(again, value);
}

#[test]
fn whole_request_is_handed_over_once() {
    let mut request = request("/echo", "hello");
    assert!(Request::consumes_request());
    let mut whole = Request::from_request(&mut request).ok().unwrap();
    assert!(request.is_taken());
    assert!(!whole.is_taken());
    assert_eq!(whole.path(), "/echo");
    assert_eq!(whole.take_body(), b"hello".to_vec());
    assert_eq!(whole.take_body(), Vec::<u8>::new());
}

#[test]
fn echo_returns_the_body_as_text() {
    let mut request = request("/echo", "hello");
    let (mut whole,) = <(Request,)>::extract(&mut request).ok().unwrap();
    let text = String::from_utf8(whole.take_body()).unwrap();
    let response = weaver::frontend::response::respond(text);
    assert_eq!(response.status.as_u16(), 200);
    assert_eq!(body_of(response), b"hello".to_vec());
}

#[test]
fn arguments_are_extracted_in_order() {
    let mut request = request("/p/7", "[1]").with_params(captures(&[("id", "7")]));
    let (Json(value), Path(path), Headers(headers), mut whole) =
        <(Json<serde_json::Value>, Path, Headers, Request)>::extract(&mut request).ok().unwrap();
    assert_eq!(value, serde_json::Value::from(vec![1]));
    assert_eq!(path.get("id"), Some("7"));
    assert_eq!(headers.len(), 1);
    assert!(request.is_taken());
    assert!(whole.headers().is_empty());
    assert!(whole.params().is_empty());
    assert_eq!(whole.take_body(), Vec::<u8>::new());
    assert_eq!(whole.extensions().get::<i32>(), Some(&5));
}

#[test]
fn no_arguments_leave_the_request_as_it_is() {
    let mut request = request("/", "body");
    assert!(<()>::extract(&mut request).is_ok());
    assert_eq!(request.take_body(), b"body".to_vec());
}

#[test]
fn rejection_ends_the_extraction_and_answers() {
    let mut request = request("/p", "not json").with_params(captures(&[("id", "7")]));
    let response =
        <(Path, Json<serde_json::Value>, Headers)>::extract(&mut request).err().unwrap();
    assert_eq!(response.status.as_u16(), 500);
    assert!(body_of(response).starts_with(b"failed to deserialize data: "));
    assert!(request.params().is_empty());
    assert_eq!(request.headers().len(), 1);
}

#[test]
fn only_the_last_extractor_may_take_the_request() {
    assert!(<(Headers, Request)>::admitted());
    assert!(<(Request,)>::admitted());
    assert!(<()>::admitted());
    assert!(!<(Request, Request)>::admitted());
    assert!(!<(Request, Headers)>::admitted());
    assert!(!<(Headers, Request, Path)>::admitted());
    assert!(<(Headers, Path, Request)>::admitted());
    assert!(<(Headers, Path, Request)>::consumes_request());
    assert!(!<(Headers, Path)>::consumes_request());
}

#[test]
fn whole_request_is_taken_last_among_many_extractors() {
    type Twelve = (
        Headers,
        Path,
        RequestExtensions,
        HeaderMap,
        Path,
        Headers,
        Path,
        Headers,
        Path,
        Headers,
        Path,
        Request,
    );
    type Stray = (
        Headers,
        Path,
        RequestExtensions,
        HeaderMap,
        Path,
        Request,
        Path,
        Headers,
        Path,
        Headers,
        Path,
        Headers,
    );
    assert!(<Twelve>::admitted());
    assert!(<Twelve>::consumes_request());
    assert!(!<Stray>::admitted());
    assert!(!<(Headers, Request, Path, Request)>::admitted());
    assert!(!<(Request, Path, Headers, Path, Request)>::admitted());
    let mut request = request("/a", "body").with_params(captures(&[("id", "7")]));
    let extracted = <Twelve>::extract(&mut request).ok().unwrap();
    assert_eq!(extracted.1 .0.get("id"), Some("7"));
    assert!(extracted.4 .0.is_empty());
    assert_eq!(extracted.0 .0.len(), 1);
    assert!(extracted.5 .0.is_empty());
    assert!(request.is_taken());
}

#[test]
fn twelve_arguments_are_extracted() {
    let mut request = request("/p", "").with_params(captures(&[("k", "v")]));
    let outcome = <(
        Path,
        Path,
        Path,
        Path,
        Path,
        Path,
        Path,
        Path,
        Path,
        Path,
        Headers,
        Request,
    )>::extract(&mut request);
    let arguments = outcome.ok().unwrap();
    assert_eq!(arguments.0 .0.get("k"), Some("v"));
    assert!(arguments.1 .0.is_empty());
    assert!(arguments.9 .0.is_empty());
    assert_eq!(arguments.10 .0.len(), 1);
    assert_eq!(arguments.11.path(), "/p");
    assert!(request.is_taken());
}

#[test]
fn handler_function_extracts_and_answers() {
    let handler: HandlerFn<u8, (), (StatusCode, String), (Path, Request)> = HandlerFn::new(1u8);
    assert_eq!(handler.func, 1);
    assert!(handler.is_admissible());
    let mut request = request("/p/1", "x").with_params(captures(&[("id", "1")]));
    let (Path(path), _whole) = handler.arguments(&mut request).ok().unwrap();
    assert_eq!(path.get("id"), Some("1"));
    let response = handler.response((StatusCode::created(), "done".to_string()));
    assert_eq!(response.status.as_u16(), 201);
    assert_eq!(body_of(response), b"done".to_vec());

    let bad: HandlerFn<u8, (), (), (Request, Request)> = HandlerFn::new(2u8);
    assert!(!bad.is_admissible());

    let older: Handler<u8, (), String, (Headers,)> = Handler::new(3u8);
    assert_eq!(older.func, 3);
    let mut request = super_request();
    assert!(older.arguments(&mut request).is_ok());
    assert_eq!(body_of(older.response("ok".to_string())), b"ok".to_vec());
}

#[test]
fn request_parts_can_be_replaced() {
    let mut request = request("/", "");
    let mut headers = HeaderMap::new();
    headers.insert(HeaderName::from_static("x-new"), HeaderValue::from_static("1"));
    let had = request.replace_headers(headers);
    assert_eq!(had.get("x-add-value").unwrap(), "3");
    assert_eq!(request.headers().get("x-new").unwrap(), "1");
    let _ = InternalError::from(1u8);
}

#[test]
fn body_that_could_not_be_collected_rejects_the_json_extractor() {
    let mut request = request("/json", "[1]").with_body_failure("connection reset".to_string());
    let rejection = Json::<serde_json::Value>::from_request(&mut request).err().unwrap();
    assert_eq!(rejection.0, "failed to collect body: connection reset");
    let again = Json::<serde_json::Value>::from_request(&mut request).err().unwrap();
    assert!(again.0.starts_with("failed to deserialize data: "));
}

#[test]
fn request_is_given_its_body_after_routing() {
    let mut request = request("/", "").with_body(Body::from_text("late"));
    assert_eq!(request.take_collected(), Ok(b"late".to_vec()));
    let mut failed = super_request().with_body_failure("x".to_string()).with_body(Body::from_text("b"));
    assert_eq!(failed.take_collected(), Ok(b"b".to_vec()));
}

#[test]
fn collected_body_is_moved_out_once() {
    let mut request = request("/", "abc");
    assert_eq!(request.take_collected(), Ok(b"abc".to_vec()));
    assert_eq!(request.take_collected(), Ok(Vec::new()));
    let mut failed = super_request().with_body_failure("timeout".to_string());
    assert_eq!(failed.take_body(), Vec::<u8>::new());
    assert_eq!(failed.take_collected(), Err("timeout".to_string()));
    assert_eq!(failed.take_collected(), Ok(Vec::new()));
}

#[test]
fn rejection_texts_name_the_failure() {
    assert_eq!(collection_failed("x"), "failed to collect body: x");
    assert_eq!(decoding_failed("y"), "failed to deserialize data: y");
}
