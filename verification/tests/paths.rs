use weaver::frontend::routing::concat_path;

#[test]
fn concat_path_with_empty_base_gives_leading_slash() {
    assert_eq!(concat_path("", "/x"), "/x");
}

#[test]
fn concat_path_drops_one_slash_on_each_side() {
    assert_eq!(concat_path("/a/", "/b"), "/a/b");
}

#[test]
fn concat_path_adds_the_missing_slash() {
    assert_eq!(concat_path("/a", "b"), "/a/b");
}

#[test]
fn concat_path_of_two_empty_paths_is_a_slash() {
    assert_eq!(concat_path("", ""), "/");
    assert_eq!(concat_path("/", "/"), "/");
}

#[test]
fn concat_path_leaves_one_slash_at_the_join() {
    assert_eq!(concat_path("/a//", "//b"), "/a/b");
    assert_eq!(concat_path("/a///", "b"), "/a/b");
    assert_eq!(concat_path("/a", "///b"), "/a/b");
    assert_eq!(concat_path("///", "///"), "/");
    assert_eq!(concat_path("//a//b//", "//c//d//"), "//a//b/c//d//");
}

#[test]
fn concat_path_keeps_what_lies_beyond_ascii() {
    assert_eq!(concat_path("/caf\u{e9}/", "/\u{fc}ber"), "/caf\u{e9}/\u{fc}ber");
}

#[test]
fn concat_path_keeps_captures() {
    assert_eq!(concat_path("/combined", "/path/{id}"), "/combined/path/{id}");
}
