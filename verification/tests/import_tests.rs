use libsqlitesite::import::{
    count_dictionaries_for, find_dictionary, page_url_for_path, parse_dictionary_arg,
    prepare_import, ImportDictionary,
};
use libsqlitesite::request::request_path;
use libsqlitesite::{SiteError, SqliteSite};

#[test]
fn page_urls_of_files() {
    assert_eq!(page_url_for_path("a/b.html", false), "/a/b.html");
    assert_eq!(page_url_for_path("a/index.html", false), "/a/index.html");
    assert_eq!(page_url_for_path("a/index.html", true), "/a");
    assert_eq!(page_url_for_path("index.html", true), "/");
    assert_eq!(page_url_for_path("index.html", false), "/index.html");
    assert_eq!(page_url_for_path("a/myindex.html", true), "/a/myindex.html");
    assert_eq!(page_url_for_path("", true), "/");
}

#[test]
fn dictionary_arguments() {
    assert_eq!(
        parse_dictionary_arg("html:/tmp/dict"),
        Some(("html".to_string(), "/tmp/dict".to_string()))
    );
    assert_eq!(
        parse_dictionary_arg("css:C:/dict"),
        Some(("css".to_string(), "C:/dict".to_string()))
    );
    assert_eq!(parse_dictionary_arg(":x"), Some(("".to_string(), "x".to_string())));
    assert_eq!(parse_dictionary_arg("nocolon"), None);
}

fn dictionaries() -> Vec<ImportDictionary> {
    vec![
        ImportDictionary { extension: "html".to_string(), bytes: b"<html><body>".repeat(10), id: 7 },
        ImportDictionary { extension: "css".to_string(), bytes: b"body { margin: 0 }".repeat(10), id: 9 },
    ]
}

#[test]
fn dictionaries_by_extension() {
    let dicts = dictionaries();
    assert_eq!(find_dictionary(&dicts, "css"), Some(1));
    assert_eq!(find_dictionary(&dicts, "js"), None);
    assert_eq!(count_dictionaries_for(&dicts, "html"), 1);
    let mut doubled = dictionaries();
    doubled.push(ImportDictionary { extension: "html".to_string(), bytes: vec![1], id: 1 });
    assert_eq!(count_dictionaries_for(&doubled, "html"), 2);
    assert_eq!(count_dictionaries_for(&doubled, "txt"), 0);
}

#[test]
fn prepared_pages_are_compressed_by_extension() {
    let dicts = dictionaries();
    let contents = b"<html><body>hello hello hello</body></html>".to_vec();
    let page = prepare_import("dir/index.html", Some("html"), contents.clone(), &dicts, true).unwrap();
    assert_eq!(page.url, "/dir");
    assert_eq!(page.zstd_dictionary, Some(7));
    assert_ne!(page.contents, contents);
    let mut decoder = zstd::bulk::Decompressor::with_dictionary(&dicts[0].bytes).unwrap();
    assert_eq!(decoder.decompress(&page.contents, 1000).unwrap(), contents);

    let plain = prepare_import("a.txt", Some("txt"), b"text".to_vec(), &dicts, false).unwrap();
    assert_eq!(plain.url, "/a.txt");
    assert_eq!(plain.zstd_dictionary, None);
    assert_eq!(plain.contents, b"text".to_vec());

    let none = prepare_import("README", None, b"r".to_vec(), &dicts, false).unwrap();
    assert_eq!(none.zstd_dictionary, None);
}

#[test]
fn imported_page_reads_back_from_a_site() {
    let dicts_raw = dictionaries();
    let mut site = SqliteSite::create_in_memory().unwrap();
    let id = site.get_or_create_zstd_dictionary(&dicts_raw[0].bytes).unwrap();
    let dicts = vec![ImportDictionary { extension: "html".to_string(), bytes: dicts_raw[0].bytes.clone(), id }];
    let contents = b"<html><body>imported</body></html>".to_vec();
    let page = prepare_import("x/index.html", Some("html"), contents.clone(), &dicts, true).unwrap();
    {
        let mut bulk = site.start_bulk().unwrap();
        bulk.add_unique_url(&page.url, page.zstd_dictionary, None, &page.contents).unwrap();
        bulk.finish().unwrap();
    }
    assert_eq!(site.urls(None).unwrap().to_vec(), vec!["/x/"]);
    let stored = site.get_url("/x/").unwrap().into_200_contents().unwrap();
    assert_eq!(stored.to_vec(), contents);
}

#[test]
fn request_paths_are_decoded() {
    assert_eq!(request_path("/hello%20world").unwrap(), "/hello world");
    assert_eq!(request_path("hello").unwrap(), "/hello");
    assert_eq!(request_path("/a+b").unwrap(), "/a+b");
    assert_eq!(request_path("/%C3%BC").unwrap(), "/ü");
    assert_eq!(request_path("/100%").unwrap(), "/100%");
    assert_eq!(request_path("/%zz").unwrap(), "/%zz");
    assert_eq!(request_path("").unwrap(), "/");
    assert!(request_path("/%FF").is_err());
}

#[test]
fn io_error_variant_is_reported_for_bad_compressed_data() {
    let mut site = SqliteSite::create_in_memory().unwrap();
    let id = site.get_or_create_zstd_dictionary(b"dict").unwrap();
    site.set_url("/x", Some(id), None, b"junk").unwrap();
    assert!(matches!(site.get_c14n_url("/x"), Err(SiteError::Io(_))));
}
