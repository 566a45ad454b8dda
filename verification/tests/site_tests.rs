use libsqlitesite::{PageResponse, SiteError, SqliteSite};

fn fresh_site() -> SqliteSite {
    SqliteSite::create_in_memory().unwrap()
}

#[test]
fn set_url_then_get_url_gives_the_contents() {
    let mut site = fresh_site();
    site.set_url("/hello", None, None, b"hi there").unwrap();
    let resp = site.get_url("/hello").unwrap();
    assert_eq!(resp, PageResponse::http200(None, b"hi there".to_vec().into_boxed_slice()));
    assert_eq!(site.num_urls().unwrap(), 1);
}

#[test]
fn set_url_overwrites() {
    let mut site = fresh_site();
    site.set_url("/a", None, None, b"one").unwrap();
    site.set_url("/a", None, None, b"two").unwrap();
    let contents = site.get_url("/a").unwrap().into_200_contents().unwrap();
    assert_eq!(&*contents, b"two");
    assert_eq!(site.num_urls().unwrap(), 1);
}

#[test]
fn get_url_of_missing_page_is_4xx() {
    let site = fresh_site();
    assert_eq!(site.get_url("/nothing").unwrap(), PageResponse::http4xx);
}

#[test]
fn set_url_refuses_relative_url() {
    let mut site = fresh_site();
    assert!(matches!(site.set_url("hello", None, None, b"x"), Err(SiteError::UrlNotAbsolute)));
    assert!(matches!(site.set_url("", None, None, b"x"), Err(SiteError::UrlNotAbsolute)));
    assert_eq!(site.num_urls().unwrap(), 0);
}

#[test]
fn set_c14n_url_stores_the_canonical_url() {
    let mut site = fresh_site();
    site.set_c14n_url("foo//bar", None, None, b"page").unwrap();
    assert_eq!(site.urls(None).unwrap().to_vec(), vec!["/foo/bar/".to_string()]);
}

#[test]
fn get_c14n_url_redirects_non_canonical_urls() {
    let mut site = fresh_site();
    site.set_url("/a/b/", None, None, b"page").unwrap();
    assert_eq!(site.get_c14n_url("//a//b/").unwrap(), PageResponse::http3xx("/a/b/".to_string()));
    assert_eq!(site.get_c14n_url("a").unwrap(), PageResponse::http3xx("/a".to_string()));
}

#[test]
fn get_c14n_url_adds_missing_trailing_slash() {
    let mut site = fresh_site();
    site.set_url("/a/b/", None, None, b"page").unwrap();
    assert_eq!(site.get_c14n_url("/a/b").unwrap(), PageResponse::http3xx("/a/b/".to_string()));
    assert_eq!(site.get_c14n_url("/a/b.html").unwrap(), PageResponse::http4xx);
    assert_eq!(site.get_c14n_url("/zzz/").unwrap(), PageResponse::http4xx);
    let found = site.get_c14n_url("/a/b/").unwrap();
    assert_eq!(found.into_200_contents().unwrap().to_vec(), b"page".to_vec());
}

#[test]
fn get_c14n_url_serves_a_page_without_slash_when_stored() {
    let mut site = fresh_site();
    site.set_url("/plain", None, None, b"p").unwrap();
    assert!(matches!(site.get_c14n_url("/plain").unwrap(), PageResponse::http200(None, _)));
}

#[test]
fn headers_are_stored_and_returned() {
    let mut site = fresh_site();
    let headers = vec![
        ("X-Second".to_string(), "2".to_string()),
        ("Content-Type".to_string(), "text/html".to_string()),
    ];
    let id = site.get_or_create_http_response_headers_id(headers.clone()).unwrap();
    let mut reversed = headers.clone();
    reversed.reverse();
    assert_eq!(site.get_or_create_http_response_headers_id(reversed).unwrap(), id);
    site.set_url("/h", None, Some(id), b"body").unwrap();
    match site.get_url("/h").unwrap() {
        PageResponse::http200(Some(stored), body) => {
            let mut sorted = headers.clone();
            sorted.sort();
            assert_eq!(stored, sorted);
            assert_eq!(&*body, b"body");
        }
        other => panic!("unexpected response {:?}", other),
    }
    let other = vec![("A".to_string(), "b".to_string())];
    assert_ne!(site.get_or_create_http_response_headers_id(other).unwrap(), id);
}

#[test]
fn search_headers_finds_pages_by_header_json() {
    let mut site = fresh_site();
    let id = site
        .get_or_create_http_response_headers_id(vec![("Content-Type".to_string(), "text/css".to_string())])
        .unwrap();
    site.set_url("/style.css", None, Some(id), b"body{}").unwrap();
    site.set_url("/plain", None, None, b"x").unwrap();
    assert_eq!(site.search_headers("%text/css%").unwrap().to_vec(), vec!["/style.css".to_string()]);
    assert!(site.search_headers("%nothing%").unwrap().is_empty());
}

#[test]
fn zstd_compressed_page_is_decompressed() {
    let mut site = fresh_site();
    let dictionary: Vec<u8> = b"<html><head><title>a page</title></head><body>".repeat(20);
    let dict_id = site.get_or_create_zstd_dictionary(&dictionary).unwrap();
    assert_eq!(site.get_or_create_zstd_dictionary(&dictionary).unwrap(), dict_id);
    let page = b"<html><head><title>a page</title></head><body>hello</body></html>".to_vec();
    let compressed = zstd::bulk::Compressor::with_dictionary(3, &dictionary)
        .unwrap()
        .compress(&page)
        .unwrap();
    assert_ne!(compressed, page);
    site.set_url("/z", Some(dict_id), None, &compressed).unwrap();
    let contents = site.get_url("/z").unwrap().into_200_contents().unwrap();
    assert_eq!(contents.to_vec(), page);
}

#[test]
fn undecodable_compressed_page_is_an_io_error() {
    let mut site = fresh_site();
    let dict_id = site.get_or_create_zstd_dictionary(b"some dictionary").unwrap();
    site.set_url("/bad", Some(dict_id), None, b"not zstd at all").unwrap();
    assert!(matches!(site.get_url("/bad"), Err(SiteError::Io(_))));
}

#[test]
fn urls_are_listed_in_order_with_limit() {
    let mut site = fresh_site();
    for url in ["/c", "/a", "/b", "/d"] {
        site.set_url(url, None, None, b"x").unwrap();
    }
    assert_eq!(site.urls(None).unwrap().to_vec(), vec!["/a", "/b", "/c", "/d"]);
    assert_eq!(site.urls(Some(2)).unwrap().to_vec(), vec!["/a", "/b"]);
    assert_eq!(site.urls(Some(0)).unwrap().len(), 0);
    assert_eq!(site.urls(Some(12)).unwrap().len(), 4);
}

#[test]
fn search_urls_uses_like_patterns() {
    let mut site = fresh_site();
    for url in ["/blog/1/", "/blog/2/", "/about/"] {
        site.set_url(url, None, None, b"x").unwrap();
    }
    assert_eq!(site.search_urls("/blog/%").unwrap().to_vec(), vec!["/blog/1/", "/blog/2/"]);
    assert!(site.search_urls("/nope%").unwrap().is_empty());
}

#[test]
fn metadata_round_trip() {
    let site = fresh_site();
    assert_eq!(site.metadata("colour").unwrap(), None);
    site.set_metadata("colour", "blue").unwrap();
    assert_eq!(site.metadata("colour").unwrap(), Some("blue".to_string()));
    site.set_metadata("colour", "red").unwrap();
    assert_eq!(site.metadata("colour").unwrap(), Some("red".to_string()));
}

#[test]
fn contents_for_404_follows_the_metadata() {
    let mut site = fresh_site();
    assert_eq!(site.contents_for_404().unwrap(), None);
    site.set_contents_for_404("gone").unwrap();
    assert_eq!(site.contents_for_404().unwrap(), Some("gone".to_string()));
    site.set_metadata("send_content_for_404", "false").unwrap();
    assert_eq!(site.contents_for_404().unwrap(), None);
}

#[test]
fn contents_for_404_without_contents_is_an_error() {
    let site = fresh_site();
    site.set_metadata("send_content_for_404", "true").unwrap();
    assert!(matches!(site.contents_for_404(), Err(SiteError::Missing404Content)));
}

#[test]
fn enabling_404_content_needs_stored_contents() {
    let mut site = fresh_site();
    assert!(matches!(site.enable_404_content(), Err(SiteError::No404ContentToEnable)));
    site.disable_404_content().unwrap();
    assert_eq!(site.metadata("content_for_404").unwrap(), Some("false".to_string()));
    site.set_contents_for_404("gone").unwrap();
    site.enable_404_content().unwrap();
    assert_eq!(site.metadata("content_for_404").unwrap(), Some("true".to_string()));
}

#[test]
fn bulk_adder_adds_canonical_urls() {
    let mut site = fresh_site();
    {
        let mut bulk = site.start_bulk().unwrap();
        assert!(!bulk.url_exists("/x").unwrap());
        bulk.add_unique_url("x", None, None, b"one").unwrap();
        assert!(bulk.url_exists("/x").unwrap());
        assert!(bulk.url_exists("//x/").unwrap());
        assert!(matches!(bulk.add_unique_url("/y", None, None, b""), Err(SiteError::EmptyContents)));
        assert!(matches!(bulk.add_unique_url("/x/", None, None, b"two"), Err(SiteError::Sqlite(_))));
        bulk.finish().unwrap();
    }
    assert_eq!(site.urls(None).unwrap().to_vec(), vec!["/x/"]);
    assert_eq!(&*site.get_url("/x/").unwrap().into_200_contents().unwrap(), b"one");
}

#[test]
fn set_bulk_adds_every_page() {
    let mut site = fresh_site();
    site.set_bulk(vec![
        ("/one".to_string(), None, b"1".to_vec()),
        ("/two".to_string(), None, b"2".to_vec()),
    ])
    .unwrap();
    assert_eq!(site.num_urls().unwrap(), 2);
    assert_eq!(&*site.get_url("/two").unwrap().into_200_contents().unwrap(), b"2");
}

#[test]
fn into_200_contents_of_other_responses_is_none() {
    assert_eq!(PageResponse::http4xx.into_200_contents(), None);
    assert_eq!(PageResponse::http3xx("/a".to_string()).into_200_contents(), None);
    let page = PageResponse::http200(None, vec![1u8, 2].into_boxed_slice());
    assert_eq!(page.into_200_contents().unwrap().to_vec(), vec![1u8, 2]);
}

#[test]
fn create_and_open_check_the_path() {
    let missing = std::path::PathBuf::from("/nonexistent-libsqlitesite-dir/site.sqlitesite");
    assert!(matches!(SqliteSite::open(&missing), Err(SiteError::PathDoesNotExist)));
    let directory = std::path::PathBuf::from("/");
    assert!(matches!(SqliteSite::open(&directory), Err(SiteError::PathIsNotAFile)));
    assert!(matches!(SqliteSite::create(&directory), Err(SiteError::PathAlreadyExists)));
    assert!(matches!(SqliteSite::open_or_create(&directory), Err(SiteError::PathIsNotAFile)));
    assert!(matches!(SqliteSite::create(&missing), Err(SiteError::Sqlite(_))));
}
