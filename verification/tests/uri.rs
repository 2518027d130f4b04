use cities_client::uri::join;
use cities_client::uri::trim_leading_slashes;
use cities_client::uri::trim_trailing_slashes;

#[test]
fn join_without_slashes() {
    assert_eq!(join("http://h:3000", "cities"), "http://h:3000/cities");
}

#[test]
fn join_with_trailing_slash_on_base() {
    assert_eq!(join("http://h:3000/", "cities"), "http://h:3000/cities");
}

#[test]
fn join_with_leading_slash_on_path() {
    assert_eq!(join("http://h:3000", "/cities"), "http://h:3000/cities");
}

#[test]
fn join_with_both_slashes() {
    assert_eq!(join("http://h:3000/", "/cities"), "http://h:3000/cities");
}

#[test]
fn join_with_many_slashes() {
    assert_eq!(join("http://h:3000///", "//cities"), "http://h:3000/cities");
}

#[test]
fn join_keeps_inner_slashes() {
    assert_eq!(join("http://h:3000/api/v1/", "/cities/"), "http://h:3000/api/v1/cities/");
}

#[test]
fn join_with_empty_parts() {
    assert_eq!(join("http://h:3000", ""), "http://h:3000/");
    assert_eq!(join("", "cities"), "/cities");
    assert_eq!(join("", ""), "/");
    assert_eq!(join("///", "///"), "/");
}

#[test]
fn join_with_characters_of_several_bytes() {
    assert_eq!(join("http://h/é/", "/ü"), "http://h/é/ü");
    assert_eq!(join("http://h/日本//", "//東京"), "http://h/日本/東京");
}

#[test]
fn trimming_cuts_slashes_only() {
    assert_eq!(trim_trailing_slashes("a/b//"), "a/b");
    assert_eq!(trim_trailing_slashes("a/b"), "a/b");
    assert_eq!(trim_trailing_slashes("//"), "");
    assert_eq!(trim_trailing_slashes(""), "");
    assert_eq!(trim_leading_slashes("//a/b/"), "a/b/");
    assert_eq!(trim_leading_slashes("a/b"), "a/b");
    assert_eq!(trim_leading_slashes("/"), "");
    assert_eq!(trim_leading_slashes(""), "");
}
