use libsqlitesite::url::url_can_be_slashhed;
use libsqlitesite::{c14n_url, c14n_url_w_slash};

#[test]
fn c14n_url0() {
    assert_eq!(c14n_url("/"), "/");
    assert_eq!(c14n_url("//"), "/");
    assert_eq!(c14n_url(""), "/");
    assert_eq!(c14n_url("/hello"), "/hello");
    assert_eq!(c14n_url("/hello/world"), "/hello/world");
    assert_eq!(c14n_url("//hello/world"), "/hello/world");
    assert_eq!(c14n_url("//////hello/world"), "/hello/world");
    assert_eq!(c14n_url("/hello//world"), "/hello/world");
    assert_eq!(c14n_url("//hello///world"), "/hello/world");
    assert_eq!(c14n_url("hello"), "/hello");
    assert_eq!(c14n_url("hello/world"), "/hello/world");
}

#[test]
fn c14n_url_w_slash1() {
    assert_eq!(c14n_url_w_slash("/"), "/");
    assert_eq!(c14n_url_w_slash("/hello/world"), "/hello/world/");
    assert_eq!(c14n_url_w_slash("/hello/world/"), "/hello/world/");
    assert_eq!(c14n_url_w_slash("/test.html"), "/test.html");
    assert_eq!(c14n_url_w_slash("/foo/bar.html"), "/foo/bar.html");
    assert_eq!(c14n_url_w_slash("/foo/bar"), "/foo/bar/");
    assert_eq!(c14n_url_w_slash("/foo/bar/"), "/foo/bar/");
    assert_eq!(c14n_url_w_slash("/foo/bar?q=hello"), "/foo/bar?q=hello");
    assert_eq!(c14n_url_w_slash("/foo/bar#hello"), "/foo/bar#hello");
}

#[test]
fn c14n_url_is_idempotent_on_examples() {
    for url in ["", "/", "a//b", "///x///y///", "no/slash", "/a.b//c?d"] {
        let once = c14n_url(url);
        assert_eq!(c14n_url(&once), once);
        let with_slash = c14n_url_w_slash(url);
        assert_eq!(c14n_url_w_slash(&with_slash), with_slash);
        assert_eq!(c14n_url(&with_slash), with_slash);
    }
}

#[test]
fn c14n_url_changes_only_slashes_on_examples() {
    for url in ["a//b", "///x///y///", "no/slash", "/a.b//c?d", "ü//ñ"] {
        let stripped: String = url.chars().filter(|c| *c != '/').collect();
        let canonical: String = c14n_url(url).chars().filter(|c| *c != '/').collect();
        assert_eq!(stripped, canonical);
    }
}

#[test]
fn c14n_url_keeps_a_trailing_slash_and_non_ascii() {
    assert_eq!(c14n_url("a//"), "/a/");
    assert_eq!(c14n_url("/ü//ñ"), "/ü/ñ");
    assert_eq!(c14n_url("///"), "/");
}

#[test]
fn url_can_be_slashhed_cases() {
    assert!(url_can_be_slashhed(""));
    assert!(url_can_be_slashhed("/foo/bar"));
    assert!(url_can_be_slashhed("foo"));
    assert!(url_can_be_slashhed("/a.b/c"));
    assert!(!url_can_be_slashhed("/"));
    assert!(!url_can_be_slashhed("/foo/"));
    assert!(!url_can_be_slashhed("/foo.html"));
    assert!(!url_can_be_slashhed("/foo?x"));
    assert!(!url_can_be_slashhed("/foo#x"));
    assert!(!url_can_be_slashhed("x.y"));
}

#[test]
fn c14n_url_w_slash_empty_and_relative() {
    assert_eq!(c14n_url_w_slash(""), "/");
    assert_eq!(c14n_url_w_slash("foo//bar"), "/foo/bar/");
    assert_eq!(c14n_url_w_slash("foo//bar.txt"), "/foo/bar.txt");
}
