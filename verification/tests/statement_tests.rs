use libsqlitesite::db::SqlParam;
use libsqlitesite::site::{
    answer_404, page_response, redirect_or, sends_404_contents, stored_id, SqliteSite,
};
use libsqlitesite::statements::{
    blob_params, bulk_page_params, canonical_page_params, canonical_url_params, headers_params,
    id_params, metadata_params, page_params, switch_value, text_params, urls_sql,
};
use libsqlitesite::{PageResponse, SiteError};

fn text(s: &str) -> SqlParam {
    SqlParam::Text(s.to_string())
}

#[test]
fn statement_parameters() {
    assert_eq!(text_params("/a"), vec![text("/a")]);
    assert_eq!(blob_params(b"xy"), vec![SqlParam::Blob(b"xy".to_vec())]);
    assert_eq!(id_params(7), vec![SqlParam::Integer(7)]);
    assert_eq!(
        page_params("/foo//bar", Some(3), None, b"c"),
        vec![text("/foo//bar"), SqlParam::Integer(3), SqlParam::Null, SqlParam::Blob(b"c".to_vec())]
    );
    assert_eq!(
        canonical_page_params("foo//bar", None, Some(4), b"c"),
        vec![text("/foo/bar/"), SqlParam::Null, SqlParam::Integer(4), SqlParam::Blob(b"c".to_vec())]
    );
    assert_eq!(canonical_url_params("//x.html"), vec![text("/x.html")]);
    assert_eq!(
        bulk_page_params(&("/p".to_string(), Some(1), b"z".to_vec())),
        vec![text("/p"), SqlParam::Integer(1), SqlParam::Blob(b"z".to_vec())]
    );
    assert_eq!(metadata_params("n", "v"), vec![text("n"), text("v")]);
    assert_eq!(
        headers_params(vec![("b".to_string(), "2".to_string()), ("a".to_string(), "1".to_string())]),
        vec![text(r#"[["a","1"],["b","2"]]"#)]
    );
}

#[test]
fn urls_statement_text() {
    assert_eq!(urls_sql(None), "SELECT url FROM urls ORDER BY url ;");
    assert_eq!(urls_sql(Some(20)), "SELECT url FROM urls ORDER BY url  LIMIT 20;");
    assert_eq!(urls_sql(Some(0)), "SELECT url FROM urls ORDER BY url  LIMIT 0;");
    assert_eq!(urls_sql(Some(1234567)), "SELECT url FROM urls ORDER BY url  LIMIT 1234567;");
}

#[test]
fn switch_values() {
    assert_eq!(switch_value(true), "true");
    assert_eq!(switch_value(false), "false");
}

#[test]
fn stored_ids() {
    assert_eq!(stored_id(None).unwrap(), None);
    assert_eq!(stored_id(Some(5)).unwrap(), Some(5));
    assert!(matches!(stored_id(Some(-1)), Err(SiteError::IntegerOutOfRange(-1))));
    assert!(matches!(stored_id(Some(1 << 40)), Err(SiteError::IntegerOutOfRange(_))));
}

#[test]
fn page_response_from_rows() {
    assert_eq!(page_response(None, None, None).unwrap(), PageResponse::http4xx);
    let raw = page_response(Some((None, None, b"raw".to_vec())), None, None).unwrap();
    assert_eq!(raw, PageResponse::http200(None, b"raw".to_vec().into_boxed_slice()));
    let headers = Some(vec![("a".to_string(), "1".to_string())]);
    let frame = vec![0x28u8, 0xB5, 0x2F, 0xFD, 0x20, 0x02, 0x11, 0x00, 0x00, 0x68, 0x69];
    let decoded = page_response(Some((Some(1), Some(2), frame)), headers.clone(), Some(b"dict".to_vec()))
        .unwrap();
    assert_eq!(decoded, PageResponse::http200(headers, b"hi".to_vec().into_boxed_slice()));
    assert!(matches!(
        page_response(Some((Some(1), None, b"junk".to_vec())), None, Some(b"dict".to_vec())),
        Err(SiteError::Io(_))
    ));
}

#[test]
fn redirect_or_passes_answers_on() {
    assert_eq!(redirect_or("/a", PageResponse::http4xx), PageResponse::http3xx("/a/".to_string()));
    assert_eq!(redirect_or("/a.html", PageResponse::http4xx), PageResponse::http4xx);
    assert_eq!(redirect_or("/a/", PageResponse::http4xx), PageResponse::http4xx);
    let page = PageResponse::http200(None, b"x".to_vec().into_boxed_slice());
    assert_eq!(
        redirect_or("/a", PageResponse::http200(None, b"x".to_vec().into_boxed_slice())),
        page
    );
}

#[test]
fn answers_for_404() {
    assert_eq!(answer_404(None, None).unwrap(), None);
    assert_eq!(answer_404(Some("false".to_string()), Some("c".to_string())).unwrap(), None);
    assert_eq!(answer_404(Some("true".to_string()), Some("c".to_string())).unwrap(), Some("c".to_string()));
    assert!(matches!(answer_404(Some("true".to_string()), None), Err(SiteError::Missing404Content)));
    assert!(sends_404_contents(&Some("true".to_string())));
}

#[test]
fn zstd_frame_page_reads_back_decoded() {
    let mut s = SqliteSite::create_in_memory().unwrap();
    let d = s.get_or_create_zstd_dictionary(b"dict").unwrap();
    s.set_url("/z", Some(d), None, &[0x28u8, 0xB5, 0x2F, 0xFD, 0x20, 0x02, 0x11, 0x00, 0x00, 0x68, 0x69])
        .unwrap();
    assert_eq!(s.get_url("/z").unwrap(), PageResponse::http200(None, b"hi".to_vec().into_boxed_slice()));
}

#[test]
fn stored_headers_read_back_sorted() {
    let mut s = SqliteSite::create_in_memory().unwrap();
    let h = s
        .get_or_create_http_response_headers_id(vec![
            ("b".to_string(), "2".to_string()),
            ("a".to_string(), "1".to_string()),
        ])
        .unwrap();
    s.set_url("/a", None, None, b"hi").unwrap();
    s.set_url("/h", None, Some(h), b"x").unwrap();
    assert_eq!(s.get_url("/a").unwrap(), PageResponse::http200(None, b"hi".to_vec().into_boxed_slice()));
    assert_eq!(
        s.get_url("/h").unwrap(),
        PageResponse::http200(
            Some(vec![("a".to_string(), "1".to_string()), ("b".to_string(), "2".to_string())]),
            b"x".to_vec().into_boxed_slice()
        )
    );
    assert_eq!(s.get_url("/b").unwrap(), PageResponse::http4xx);
}

#[test]
fn set_url_keeps_the_url_as_given() {
    let mut s = SqliteSite::create_in_memory().unwrap();
    s.set_url("/foo//bar", None, None, b"x").unwrap();
    assert_eq!(s.urls(None).unwrap().to_vec(), vec!["/foo//bar".to_string()]);
    assert_eq!(s.get_url("/foo/bar/").unwrap(), PageResponse::http4xx);
    s.set_url("/foo//bar", None, None, b"y").unwrap();
    assert_eq!(s.num_urls().unwrap(), 1);
    assert_eq!(s.get_url("/foo//bar").unwrap(), PageResponse::http200(None, b"y".to_vec().into_boxed_slice()));
}

#[test]
fn exact_lookup_and_c14n_lookup() {
    let mut s = SqliteSite::create_in_memory().unwrap();
    s.set_url("/a", None, None, b"x").unwrap();
    assert_eq!(s.get_url("/a/").unwrap(), PageResponse::http4xx);
    assert_eq!(s.get_url("//a").unwrap(), PageResponse::http4xx);
    assert_eq!(s.get_url("a").unwrap(), PageResponse::http4xx);
    let mut t = SqliteSite::create_in_memory().unwrap();
    t.set_url("/a/", None, None, b"x").unwrap();
    assert_eq!(t.get_c14n_url("/a").unwrap(), PageResponse::http3xx("/a/".to_string()));
    assert_eq!(t.get_c14n_url("/a/").unwrap(), PageResponse::http200(None, b"x".to_vec().into_boxed_slice()));
    assert_eq!(t.get_c14n_url("/b").unwrap(), PageResponse::http3xx("/b/".to_string()));
    assert_eq!(t.get_c14n_url("/b.html").unwrap(), PageResponse::http4xx);
    t.set_c14n_url("foo//bar", None, None, b"x").unwrap();
    assert_eq!(t.get_url("/foo/bar/").unwrap(), PageResponse::http200(None, b"x".to_vec().into_boxed_slice()));
}
