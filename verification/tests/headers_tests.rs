use libsqlitesite::headers::canonical_headers_json;
use libsqlitesite::site::{sends_404_contents, stored_contents, stored_headers};
use libsqlitesite::SiteError;

fn pair(k: &str, v: &str) -> (String, String) {
    (k.to_string(), v.to_string())
}

#[test]
fn canonical_json_sorts_the_pairs() {
    let json = canonical_headers_json(vec![pair("b", "2"), pair("a", "1"), pair("a", "0")]);
    assert_eq!(json, r#"[["a","0"],["a","1"],["b","2"]]"#);
    let same = canonical_headers_json(vec![pair("a", "0"), pair("b", "2"), pair("a", "1")]);
    assert_eq!(json, same);
    assert_eq!(canonical_headers_json(vec![]), "[]");
}

#[test]
fn canonical_json_orders_by_bytes() {
    let json = canonical_headers_json(vec![pair("é", "x"), pair("z", "y"), pair("Z", "w")]);
    assert_eq!(json, r#"[["Z","w"],["z","y"],["é","x"]]"#);
}

#[test]
fn stored_headers_parse_the_json() {
    assert_eq!(stored_headers(None).unwrap(), None);
    assert_eq!(
        stored_headers(Some(r#"[["Content-Type","text/html"]]"#.to_string())).unwrap(),
        Some(vec![pair("Content-Type", "text/html")])
    );
    assert!(matches!(stored_headers(Some("not json".to_string())), Err(SiteError::Json(_))));
    assert!(matches!(stored_headers(Some(r#"{"a":1}"#.to_string())), Err(SiteError::Json(_))));
}

#[test]
fn stored_contents_decode_with_the_dictionary() {
    assert_eq!(stored_contents(b"raw".to_vec(), None).unwrap(), b"raw".to_vec());
    let dictionary = b"a dictionary of words words words".to_vec();
    let data = b"words words and more words".to_vec();
    let compressed = zstd::bulk::Compressor::with_dictionary(3, &dictionary)
        .unwrap()
        .compress(&data)
        .unwrap();
    assert_eq!(stored_contents(compressed, Some(dictionary.clone())).unwrap(), data);
    assert!(matches!(stored_contents(b"garbage".to_vec(), Some(dictionary)), Err(SiteError::Io(_))));
}

#[test]
fn send_flag_must_be_exactly_true() {
    assert!(sends_404_contents(&Some("true".to_string())));
    assert!(!sends_404_contents(&Some("True".to_string())));
    assert!(!sends_404_contents(&Some("true ".to_string())));
    assert!(!sends_404_contents(&Some("false".to_string())));
    assert!(!sends_404_contents(&None));
}
