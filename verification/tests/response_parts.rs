use http::header::{HeaderName, HeaderValue};
use http::HeaderMap;
use weaver::frontend::extras::json::{as_response_part, Json};
use weaver::frontend::response::error::InternalError;
use weaver::frontend::response::json::{json_response, JsonResponse};
use weaver::frontend::response::{can_respond, respond, try_apply, Extend, ResponsePart};
use weaver::server::{Body, Response, StatusCode};

fn fresh() -> Response {
    Response::new(Body::empty())
}

fn header(response: &Response, name: &str) -> Option<String> {
    response.headers.get(name).map(|value| value.to_str().unwrap().to_string())
}

fn body(mut response: Response) -> Vec<u8> {
    response.body.take_frame().unwrap()
}

fn map(pairs: &[(&'static str, &'static str)]) -> HeaderMap {
    let mut map = HeaderMap::new();
    for (name, value) in pairs {
        map.insert(HeaderName::from_static(name), HeaderValue::from_static(value));
    }
    map
}

#[test]
fn fresh_response_is_empty_and_ok() {
    let response = fresh();
    assert_eq!(response.status.as_u16(), 200);
    assert!(response.headers.is_empty());
    assert!(response.extensions.is_empty());
    assert_eq!(body(response), Vec::<u8>::new());
}

#[test]
fn unit_leaves_the_response_as_it_is() {
    let response = respond(());
    assert_eq!(response.status.as_u16(), 200);
    assert!(response.headers.is_empty());
    assert_eq!(body(response), Vec::<u8>::new());
}

#[test]
fn status_part_sets_the_status() {
    let response = respond(StatusCode::created());
    assert_eq!(response.status.as_u16(), 201);
}

#[test]
fn later_part_writes_over_earlier_part() {
    let response = respond((StatusCode::created(), StatusCode::bad_request()));
    assert_eq!(response.status.as_u16(), 400);
    let response = respond(("first".to_string(), "second".to_string()));
    assert_eq!(body(response), b"second".to_vec());
}

#[test]
fn text_and_bytes_set_the_body() {
    assert_eq!(body(respond("hello".to_string())), b"hello".to_vec());
    assert_eq!(body(respond("plain")), b"plain".to_vec());
    assert_eq!(body(respond(vec![1u8, 2, 3])), vec![1u8, 2, 3]);
    assert_eq!(body(respond(Body::from_text("caf\u{e9}"))), "caf\u{e9}".as_bytes().to_vec());
    assert_eq!(body(respond(Body::from_bytes(vec![9u8]))), vec![9u8]);
}

#[test]
fn header_map_takes_the_place_of_the_headers() {
    let mut response = fresh();
    assert!(try_apply(map(&[("x-old", "1")]), &mut response));
    assert!(try_apply(map(&[("x-new", "2")]), &mut response));
    assert_eq!(header(&response, "x-old"), None);
    assert_eq!(header(&response, "x-new"), Some("2".to_string()));
}

#[test]
fn extend_merges_into_the_headers() {
    let response = respond((map(&[("x", "1"), ("y", "2")]), Extend(map(&[("x", "2"), ("z", "3")]))));
    assert_eq!(header(&response, "x"), Some("2".to_string()));
    assert_eq!(header(&response, "y"), Some("2".to_string()));
    assert_eq!(header(&response, "z"), Some("3".to_string()));
    assert_eq!(response.headers.len(), 3);
}

#[test]
fn extend_takes_all_values_of_a_name() {
    let mut added = HeaderMap::new();
    added.append(HeaderName::from_static("cookie"), HeaderValue::from_static("a"));
    added.append(HeaderName::from_static("cookie"), HeaderValue::from_static("b"));
    let mut held = HeaderMap::new();
    held.append(HeaderName::from_static("cookie"), HeaderValue::from_static("old1"));
    held.append(HeaderName::from_static("cookie"), HeaderValue::from_static("old2"));
    held.append(HeaderName::from_static("cookie"), HeaderValue::from_static("old3"));
    let response = respond((held, Extend(added)));
    let values: Vec<_> = response.headers.get_all("cookie").iter().map(|v| v.as_bytes().to_vec()).collect();
    assert_eq!(values, vec![b"a".to_vec(), b"b".to_vec()]);
}

#[test]
fn single_header_takes_the_place_of_all_values_of_its_name() {
    let mut held = HeaderMap::new();
    held.append(HeaderName::from_static("x-a"), HeaderValue::from_static("1"));
    held.append(HeaderName::from_static("x-a"), HeaderValue::from_static("2"));
    let response =
        respond((held, (HeaderName::from_static("x-a"), HeaderValue::from_static("3"))));
    let values: Vec<_> = response.headers.get_all("x-a").iter().collect();
    assert_eq!(values.len(), 1);
    assert_eq!(header(&response, "x-a"), Some("3".to_string()));
}

#[test]
fn array_of_headers_is_written_in_order() {
    let response = respond([("X-A", "1"), ("X-B", "2"), ("X-A", "3")]);
    assert_eq!(response.status.as_u16(), 200);
    assert_eq!(header(&response, "x-a"), Some("3".to_string()));
    assert_eq!(header(&response, "x-b"), Some("2".to_string()));
    assert_eq!(response.headers.len(), 2);
}

#[test]
fn bad_header_name_ends_the_response_with_500() {
    let response = respond([("X-A", "1"), ("bad name", "2"), ("X-C", "3")]);
    assert_eq!(response.status.as_u16(), 500);
    assert_eq!(header(&response, "x-a"), Some("1".to_string()));
    assert_eq!(header(&response, "x-c"), None);
    assert_eq!(header(&response, "content-type"), Some("text/plain; charset=utf-8".to_string()));
    assert_eq!(body(response), b"invalid HTTP header name".to_vec());
}

#[test]
fn bad_header_value_ends_the_response_with_500() {
    let response = respond([("X-A", "line\nbreak"), ("X-B", "2")]);
    assert_eq!(response.status.as_u16(), 500);
    assert_eq!(header(&response, "x-a"), None);
    assert_eq!(header(&response, "x-b"), None);
    assert_eq!(header(&response, "content-type"), Some("text/plain; charset=utf-8".to_string()));
    assert_eq!(body(response), b"failed to parse header value".to_vec());
}

#[test]
fn empty_header_name_is_bad() {
    let response = respond([("", "1")]);
    assert_eq!(response.status.as_u16(), 500);
    assert_eq!(body(response), b"invalid HTTP header name".to_vec());
}

#[test]
fn internal_error_answers_with_500_and_its_text() {
    let response = respond(InternalError::from("it broke".to_string()));
    assert_eq!(response.status.as_u16(), 500);
    assert_eq!(header(&response, "content-type"), Some("text/plain; charset=utf-8".to_string()));
    assert_eq!(body(response), b"it broke".to_vec());
}

#[test]
fn result_applies_the_part_it_holds() {
    let ok: Result<StatusCode, InternalError<String>> = Ok(StatusCode::created());
    assert_eq!(respond(ok).status.as_u16(), 201);
    let err: Result<StatusCode, InternalError<String>> = Err(InternalError("no".to_string()));
    let response = respond(err);
    assert_eq!(response.status.as_u16(), 500);
    assert_eq!(body(response), b"no".to_vec());
}

#[test]
fn either_applies_the_part_it_holds() {
    let left: either::Either<StatusCode, String> = either::Either::Left(StatusCode::not_found());
    assert_eq!(respond(left).status.as_u16(), 404);
    let right: either::Either<StatusCode, String> = either::Either::Right("text".to_string());
    let response = respond(right);
    assert_eq!(response.status.as_u16(), 200);
    assert_eq!(body(response), b"text".to_vec());
}

#[test]
fn response_part_takes_the_place_of_the_response() {
    let mut inner = fresh();
    inner.status = StatusCode::too_many_requests();
    inner.headers.insert(HeaderName::from_static("x-inner"), HeaderValue::from_static("1"));
    let response = respond((
        StatusCode::created(),
        map(&[("x-outer", "1")]),
        inner,
        (HeaderName::from_static("x-was-set"), HeaderValue::from_static("true")),
    ));
    assert_eq!(response.status.as_u16(), 429);
    assert_eq!(header(&response, "x-outer"), None);
    assert_eq!(header(&response, "x-inner"), Some("1".to_string()));
    assert_eq!(header(&response, "x-was-set"), Some("true".to_string()));
}

#[test]
fn extensions_are_replaced_or_merged() {
    let mut first = http::Extensions::new();
    first.insert(8u8);
    first.insert(16u16);
    let mut second = http::Extensions::new();
    second.insert(4u8);
    second.insert("hello");
    let merged = respond((first.clone(), Extend(second.clone())));
    assert_eq!(merged.extensions.len(), 3);
    assert_eq!(merged.extensions.get::<u8>(), Some(&4u8));
    assert_eq!(merged.extensions.get::<u16>(), Some(&16u16));
    let replaced = respond((first, second));
    assert_eq!(replaced.extensions.len(), 2);
    assert_eq!(replaced.extensions.get::<u16>(), None);
    assert_eq!(replaced.extensions.get::<u8>(), Some(&4u8));
}

#[test]
fn json_part_sets_body_and_content_type() {
    let value = serde_json::Value::from(vec![1, 2, 3]);
    let response = respond(Json::from(value));
    assert_eq!(response.status.as_u16(), 200);
    assert_eq!(header(&response, "content-type"), Some("application/json".to_string()));
    assert_eq!(body(response), b"[1,2,3]".to_vec());
}

#[test]
fn json_part_replaces_a_content_type_set_before() {
    let value = serde_json::Value::from("x");
    let response = respond((map(&[("content-type", "text/html")]), Json(value)));
    assert_eq!(header(&response, "content-type"), Some("application/json".to_string()));
    assert_eq!(response.headers.get_all("content-type").iter().count(), 1);
    assert_eq!(body(response), b"\"x\"".to_vec());
}

#[test]
fn extend_after_json_writes_over_the_content_type() {
    let value = serde_json::Value::Null;
    let response = respond((Json(value), Extend(map(&[("content-type", "text/html")]))));
    assert_eq!(header(&response, "content-type"), Some("text/html".to_string()));
    assert_eq!(body(response), b"null".to_vec());
}

#[test]
fn encoding_failure_gives_an_internal_error_part() {
    let part = as_response_part(Err("key must be a string".to_string()));
    let response = respond(part);
    assert_eq!(response.status.as_u16(), 500);
    assert_eq!(header(&response, "content-type"), Some("text/plain; charset=utf-8".to_string()));
    assert_eq!(body(response), b"key must be a string".to_vec());
    let part = as_response_part(Ok(b"{}".to_vec()));
    let response = respond(part);
    assert_eq!(response.status.as_u16(), 200);
    assert_eq!(header(&response, "content-type"), Some("application/json".to_string()));
    assert_eq!(body(response), b"{}".to_vec());
}

#[test]
fn composite_parts_apply_from_left_to_right() {
    let mut object = serde_json::Map::new();
    object.insert("answer".to_string(), serde_json::Value::from(42));
    let value = serde_json::Value::Object(object);
    let response = respond((
        StatusCode::created(),
        map(&[("x-header-1", "header-1"), ("x-header-2", "header-2")]),
        Json(value),
        Extend(map(&[
            ("x-header-1", "header-1-2"),
            ("x-header-3", "header-3"),
            ("x-header-4", "header-4"),
        ])),
        (HeaderName::from_static("x-header-5"), HeaderValue::from_static("header-5")),
        [("X-Header-6", "header-6"), ("X-Header-4", "header-4-1")],
    ));
    assert_eq!(response.status.as_u16(), 201);
    let mut seen: Vec<(String, String)> = response
        .headers
        .iter()
        .map(|(name, value)| (name.as_str().to_string(), value.to_str().unwrap().to_string()))
        .collect();
    seen.sort();
    let expected: Vec<(String, String)> = [
        ("content-type", "application/json"),
        ("x-header-1", "header-1-2"),
        ("x-header-2", "header-2"),
        ("x-header-3", "header-3"),
        ("x-header-4", "header-4-1"),
        ("x-header-5", "header-5"),
        ("x-header-6", "header-6"),
    ]
    .iter()
    .map(|(name, value)| (name.to_string(), value.to_string()))
    .collect();
    assert_eq!(seen, expected);
    assert_eq!(body(response), b"{\"answer\":42}".to_vec());
}

#[test]
fn tuple_of_thirteen_parts_applies_all() {
    let response = respond((
        StatusCode::ok(),
        StatusCode::created(),
        (),
        "a".to_string(),
        "b".to_string(),
        (HeaderName::from_static("x-1"), HeaderValue::from_static("1")),
        (HeaderName::from_static("x-2"), HeaderValue::from_static("2")),
        (HeaderName::from_static("x-1"), HeaderValue::from_static("3")),
        (),
        StatusCode::bad_request(),
        "c".to_string(),
        (),
        StatusCode::not_found(),
    ));
    assert_eq!(response.status.as_u16(), 404);
    assert_eq!(header(&response, "x-1"), Some("3".to_string()));
    assert_eq!(header(&response, "x-2"), Some("2".to_string()));
    assert_eq!(body(response), b"c".to_vec());
}

fn big_map(values: usize) -> HeaderMap {
    let mut map = HeaderMap::new();
    for i in 0..values {
        map.append(
            HeaderName::from_bytes(format!("x-{}", i).as_bytes()).unwrap(),
            HeaderValue::from_static("v"),
        );
    }
    map
}

#[test]
fn part_without_room_for_its_headers_is_not_applied() {
    let mut response = fresh();
    assert!(try_apply(big_map(6553), &mut response));
    assert_eq!(response.headers.len(), 6553);
    assert!(!try_apply(
        (StatusCode::created(), (HeaderName::from_static("x-more"), HeaderValue::from_static("1"))),
        &mut response
    ));
    assert_eq!(response.status.as_u16(), 200);
    assert_eq!(response.headers.len(), 6553);
    assert_eq!(header(&response, "x-more"), None);
    assert!(try_apply(StatusCode::created(), &mut response));
    assert_eq!(response.status.as_u16(), 201);
}

#[test]
fn last_value_that_has_room_is_added() {
    let mut response = fresh();
    assert!(try_apply(big_map(6552), &mut response));
    assert!(try_apply(
        (HeaderName::from_static("x-more"), HeaderValue::from_static("1")),
        &mut response
    ));
    assert_eq!(response.headers.len(), 6553);
    assert!(!try_apply(Extend(map(&[("x-last", "1")])), &mut response));
    assert_eq!(response.headers.len(), 6553);
}

#[test]
fn part_that_puts_headers_in_place_needs_no_room() {
    let response = respond((StatusCode::created(), big_map(6600)));
    assert_eq!(response.status.as_u16(), 201);
    assert_eq!(response.headers.len(), 6600);
    let mut full = fresh();
    assert!(try_apply(big_map(7000), &mut full));
    assert!(try_apply((map(&[("x-only", "1")]), StatusCode::not_found()), &mut full));
    assert_eq!(full.headers.len(), 1);
    assert_eq!(full.status.as_u16(), 404);
    let mut inner = fresh();
    inner.headers = big_map(7000);
    let response = respond((inner, "body".to_string()));
    assert_eq!(response.headers.len(), 7000);
    assert_eq!(body(response), b"body".to_vec());
}

#[test]
fn part_that_adds_too_many_headers_cannot_respond() {
    let first = (StatusCode::created(), Extend(big_map(6554)));
    assert!(!can_respond(&first));
    let second = (
        StatusCode::created(),
        big_map(6553),
        (HeaderName::from_static("x-more"), HeaderValue::from_static("1")),
    );
    assert!(!can_respond(&second));
    let third = (
        big_map(6553),
        (HeaderName::from_static("x-more"), HeaderValue::from_static("1")),
        map(&[("x-only", "1")]),
    );
    assert!(!can_respond(&third));
    let mut response = fresh();
    assert!(try_apply(StatusCode::not_found(), &mut response));
    assert!(!try_apply(first, &mut response));
    assert!(!try_apply(second, &mut response));
    assert!(!try_apply(third, &mut response));
    assert_eq!(response.status.as_u16(), 404);
    assert!(response.headers.is_empty());
}

#[test]
fn part_with_room_for_its_headers_can_respond() {
    assert!(can_respond(&()));
    assert!(can_respond(&StatusCode::created()));
    assert!(can_respond(&big_map(7000)));
    let most = (StatusCode::created(), Extend(big_map(6553)));
    assert!(can_respond(&most));
    let response = respond(most);
    assert_eq!(response.status.as_u16(), 201);
    assert_eq!(response.headers.len(), 6553);
    let refilled = (
        big_map(6553),
        map(&[("x-only", "1")]),
        (HeaderName::from_static("x-more"), HeaderValue::from_static("1")),
    );
    assert!(can_respond(&refilled));
    assert_eq!(respond(refilled).headers.len(), 2);
}

#[test]
fn extension_by_no_headers_takes_no_room() {
    assert!(can_respond(&Extend(HeaderMap::new())));
    assert!(respond(Extend(HeaderMap::new())).headers.is_empty());
    let mut full = fresh();
    assert!(try_apply(big_map(7000), &mut full));
    assert!(try_apply((StatusCode::created(), Extend(HeaderMap::new())), &mut full));
    assert_eq!(full.status.as_u16(), 201);
    assert_eq!(full.headers.len(), 7000);
    assert!(!try_apply(Extend(map(&[("x-last", "1")])), &mut full));
}

#[test]
fn headers_added_after_headers_were_put_in_place_count_from_there() {
    let mut response = fresh();
    assert!(try_apply(big_map(6553), &mut response));
    assert!(try_apply(
        (
            (),
            map(&[("x-a", "1")]),
            Extend(map(&[("x-b", "2"), ("x-c", "3")])),
            [("X-D", "4")],
            Json(serde_json::Value::Null),
        ),
        &mut response
    ));
    assert_eq!(response.headers.len(), 5);
}

#[test]
fn weight_counts_the_headers_of_a_part() {
    let none = ().weight();
    assert_eq!((none.adds, none.fits, none.resets), (0, true, None));
    let status = StatusCode::ok().weight();
    assert_eq!((status.adds, status.fits, status.resets), (0, true, None));
    let replaced = map(&[("a", "1"), ("b", "2")]).weight();
    assert_eq!((replaced.adds, replaced.fits, replaced.resets), (0, true, Some(2)));
    let extended = Extend(map(&[("a", "1")])).weight();
    assert_eq!((extended.adds, extended.fits, extended.resets), (1, true, None));
    let empty = Extend(HeaderMap::new()).weight();
    assert_eq!((empty.adds, empty.fits, empty.resets), (0, true, None));
    let array = [("a", "1"), ("b", "2"), ("c", "3")].weight();
    assert_eq!((array.adds, array.fits, array.resets), (3, true, None));
    let tuple = (Json(serde_json::Value::Null), map(&[("a", "1")]), InternalError("x".to_string()))
        .weight();
    assert_eq!((tuple.adds, tuple.fits, tuple.resets), (1, true, Some(2)));
    let over = (big_map(6553), InternalError("x".to_string())).weight();
    assert_eq!((over.adds, over.fits, over.resets), (0, false, Some(6554)));
    let capped = big_map(7000).weight();
    assert_eq!(capped.resets, Some(6554));
}

#[test]
fn json_response_answers_with_200_and_json() {
    let response = JsonResponse(serde_json::Value::from(true)).into_response();
    assert_eq!(response.status.as_u16(), 200);
    assert_eq!(header(&response, "content-type"), Some("application/json".to_string()));
    assert_eq!(response.headers.len(), 1);
    assert_eq!(body(response), b"true".to_vec());
}

#[test]
fn json_response_for_a_failed_encoding_answers_with_500() {
    let response = json_response(Err("cannot write".to_string()));
    assert_eq!(response.status.as_u16(), 500);
    assert_eq!(header(&response, "content-type"), Some("text/plain; charset=utf-8".to_string()));
    assert_eq!(body(response), b"cannot write".to_vec());
    let response = json_response(Ok(b"[]".to_vec()));
    assert_eq!(response.status.as_u16(), 200);
    assert_eq!(body(response), b"[]".to_vec());
}

#[test]
fn status_is_a_number_of_three_digits() {
    assert!(StatusCode::from_u16(99).is_err());
    assert!(StatusCode::from_u16(1000).is_err());
    assert!(StatusCode::from_u16(0).is_err());
    assert_eq!(StatusCode::from_u16(100).unwrap().as_u16(), 100);
    assert_eq!(StatusCode::from_u16(999).unwrap().as_u16(), 999);
    assert_eq!(StatusCode::ok().as_u16(), 200);
    assert_eq!(StatusCode::created().as_u16(), 201);
    assert_eq!(StatusCode::bad_request().as_u16(), 400);
    assert_eq!(StatusCode::not_found().as_u16(), 404);
    assert_eq!(StatusCode::method_not_allowed().as_u16(), 405);
    assert_eq!(StatusCode::too_many_requests().as_u16(), 429);
    assert_eq!(StatusCode::internal_server_error().as_u16(), 500);
}

#[test]
fn body_is_handed_out_once() {
    let mut body = Body::from_text("hello");
    let copy = body.duplicate();
    assert_eq!(body.take_frame(), Some(b"hello".to_vec()));
    assert_eq!(body.take_frame(), None);
    let mut copy = copy;
    assert_eq!(copy.take_frame(), Some(b"hello".to_vec()));
    assert_eq!(Body::empty().take_frame(), Some(Vec::new()));
}

fn written(name: &str) -> (u16, Option<String>) {
    let lowered = name.to_ascii_lowercase();
    let response = respond([(name, "v")]);
    let held = response.headers.get(lowered.as_str()).map(|v| v.to_str().unwrap().to_string());
    (response.status.as_u16(), held)
}

#[test]
fn header_names_are_tokens_held_in_lower_case() {
    assert_eq!(written("X-Was-Set"), (200, Some("v".to_string())));
    assert_eq!(written("!#$%&'*+-.^_`|~09azAZ"), (200, Some("v".to_string())));
    let response = respond([("Content-Type", "a"), ("content-type", "b"), ("CONTENT-TYPE", "c")]);
    assert_eq!(response.headers.len(), 1);
    assert_eq!(header(&response, "content-type"), Some("c".to_string()));
    for bad in ["a b", "a@b", "[", "a:b", "a\"b", "a(b", "a/b", "caf\u{e9}", "a{b", "a\\b", "a\u{7f}"] {
        assert_eq!(written(bad).0, 500, "{:?}", bad);
    }
}

#[test]
fn header_names_have_a_longest_length() {
    let longest = "a".repeat(65535);
    let too_long = "a".repeat(65536);
    assert_eq!(written(&longest), (200, Some("v".to_string())));
    assert_eq!(written(&too_long).0, 500);
    let mixed = format!("{}{}", "A".repeat(64), "b");
    assert_eq!(written(&mixed), (200, Some("v".to_string())));
}
