use weaver::server::Method;
use weaver::utils::SmallMap;

#[test]
fn empty_table_holds_nothing() {
    let table = SmallMap::new();
    assert_eq!(table.get(&Method::get()), None);
    assert_eq!(SmallMap::default().get(&Method::post()), None);
}

#[test]
fn insert_then_get_gives_the_value() {
    let mut table = SmallMap::new();
    assert_eq!(table.insert(Method::get(), 7), None);
    assert_eq!(table.get(&Method::get()), Some(7));
    assert_eq!(table.get(&Method::post()), None);
}

#[test]
fn insert_returns_what_was_held_before() {
    let mut table = SmallMap::new();
    assert_eq!(table.insert(Method::get(), 1), None);
    assert_eq!(table.insert(Method::post(), 2), None);
    assert_eq!(table.insert(Method::get(), 3), Some(1));
    assert_eq!(table.get(&Method::get()), Some(3));
    assert_eq!(table.get(&Method::post()), Some(2));
}

#[test]
fn extension_methods_of_any_length_are_keys() {
    let mut table = SmallMap::new();
    table.insert(Method::new("VOROJBA"), 10);
    table.insert(Method::new("ONE_HELL_LONG_VOROJBA_EXTENSION"), 11);
    assert_eq!(table.get(&Method::new("VOROJBA")), Some(10));
    assert_eq!(table.get(&Method::new("ONE_HELL_LONG_VOROJBA_EXTENSION")), Some(11));
    assert_eq!(table.get(&Method::new("VOROJB")), None);
}

#[test]
fn table_grows_past_its_inline_room() {
    let mut table = SmallMap::new();
    for i in 0..40usize {
        let name = format!("M{}", i);
        assert_eq!(table.insert(Method::new(&name), i), None);
    }
    for i in 0..40usize {
        let name = format!("M{}", i);
        assert_eq!(table.get(&Method::new(&name)), Some(i));
    }
    assert_eq!(table.insert(Method::new("M17"), 99), Some(17));
    assert_eq!(table.get(&Method::new("M17")), Some(99));
    assert_eq!(table.get(&Method::new("M39")), Some(39));
}

#[test]
fn methods_have_their_tokens() {
    assert_eq!(Method::get().as_str(), "GET");
    assert_eq!(Method::post().as_str(), "POST");
    assert_eq!(Method::put().as_str(), "PUT");
    assert_eq!(Method::patch().as_str(), "PATCH");
    assert_eq!(Method::delete().as_str(), "DELETE");
    assert_eq!(Method::connect().as_str(), "CONNECT");
    assert_eq!(Method::head().as_str(), "HEAD");
    assert_eq!(Method::options().as_str(), "OPTIONS");
    assert_eq!(Method::trace().as_str(), "TRACE");
    assert_eq!(Method::default().as_str(), "GET");
    assert!(Method::get().same(&Method::new("GET")));
    assert!(!Method::get().same(&Method::new("get")));
    assert_eq!(Method::new("VOROJBA").duplicate().as_str(), "VOROJBA");
}
