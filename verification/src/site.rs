//! The page store: a website kept in a single SQLite file.
use crate::db::{
    begin_transaction, commit, execute, execute_batch, execute_cached,
    flush_prepared_statement_cache, headers_from_json, headers_of_json, into_boxed_slice,
    open_connection, open_connection_in_memory, path_exists, path_is_file, prepare_cached,
    query_column_texts, query_row_blob, query_row_integer, query_row_integer_cached,
    query_row_optional_page, query_row_optional_text, query_row_text, transaction_connection,
    zstd_decode_with_dictionary, zstd_decoded, SqlArg, SqlParam,
};
use crate::error::SiteError;
use crate::statements::{
    blob_params, bulk_page_params, canonical_page_params, canonical_url_params, headers_params,
    bulk_page_args, id_params, metadata_args, metadata_params, page_args, page_params, spec_switch_value, switch_value, text_params, urls_sql,
    BULK_UPSERT_PAGE_SQL, CONTENT_404_NAME, COUNT_URLS_SQL, COUNT_URL_SQL, INSERT_DICTIONARY_SQL,
    INSERT_HEADERS_SQL, INSERT_PAGE_SQL, SCHEMA_SQL, SEARCH_HEADERS_SQL, SEARCH_URLS_SQL,
    SELECT_DICTIONARY_BYTES_SQL, SELECT_DICTIONARY_ID_SQL, SELECT_HEADERS_ID_SQL,
    SELECT_HEADERS_JSON_SQL, SELECT_METADATA_SQL, SELECT_PAGE_SQL, SEND_404_NAME,
    UPSERT_METADATA_SQL, UPSERT_PAGE_SQL,
};
use crate::response::PageResponse;
use crate::text::str_eq;
use crate::url::{
    c14n_url, c14n_url_w_slash, is_canonical_url, lemma_c14n_url_fixed_points, lemma_c14n_url_w_slash_idempotent,
    lemma_c14n_url_is_canonical, lemma_c14n_url_w_slash_is_canonical, spec_c14n_url,
    spec_c14n_url_w_slash, spec_can_be_slashed, starts_with_slash, url_can_be_slashhed,
};
use std::path::PathBuf;
use vstd::prelude::*;

verus! {

/// An integer read from the database, as a `u32`.
pub fn integer_to_u32(v: i64) -> (res: Result<u32, SiteError>)
    ensures
        0 <= v <= u32::MAX ==> (res matches Ok(n) && n == v),
        !(0 <= v <= u32::MAX) ==> (res matches Err(SiteError::IntegerOutOfRange(w)) && w == v),
{
    if v < 0 || v > 0xffff_ffff {
        Err(SiteError::IntegerOutOfRange(v))
    } else {
        Ok(v as u32)
    }
}

/// An integer read from the database, as a `u64`.
pub fn integer_to_u64(v: i64) -> (res: Result<u64, SiteError>)
    ensures
        0 <= v ==> (res matches Ok(n) && n == v),
        v < 0 ==> (res matches Err(SiteError::IntegerOutOfRange(w)) && w == v),
{
    if v < 0 {
        Err(SiteError::IntegerOutOfRange(v))
    } else {
        Ok(v as u64)
    }
}

/// An integer read from the database, as a `usize`.
pub fn integer_to_usize(v: i64) -> (res: Result<usize, SiteError>)
    ensures
        0 <= v <= usize::MAX ==> (res matches Ok(n) && n == v),
        !(0 <= v <= usize::MAX) ==> (res matches Err(SiteError::IntegerOutOfRange(w)) && w == v),
{
    if v < 0 || v as u64 > usize::MAX as u64 {
        Err(SiteError::IntegerOutOfRange(v))
    } else {
        Ok(v as usize)
    }
}

/// The `Ok` values of a list of row reads, in order.
pub open spec fn ok_values(rows: Seq<Result<String, rusqlite::Error>>) -> Seq<Seq<char>>
    decreases rows.len(),
{
    if rows.len() == 0 {
        Seq::empty()
    } else {
        match rows.last() {
            Ok(s) => ok_values(rows.drop_last()).push(s@),
            Err(_) => ok_values(rows.drop_last()),
        }
    }
}

/// Keeps the rows that were read without error.
pub fn keep_ok_rows(rows: &Vec<Result<String, rusqlite::Error>>, capacity: usize) -> (res: Vec<String>)
    ensures
        res.deep_view() == ok_values(rows@),
{
    let mut res: Vec<String> = Vec::with_capacity(capacity);
    let mut i: usize = 0;
    while i < rows.len()
        invariant
            i <= rows@.len(),
            res.deep_view() == ok_values(rows@.take(i as int)),
        decreases rows@.len() - i,
    {
        assert(rows@.take(i + 1).drop_last() =~= rows@.take(i as int));
        match &rows[i] {
            Ok(s) => {
                res.push(s.clone());
            },
            Err(_) => {},
        }
        assert(res.deep_view() =~= ok_values(rows@.take(i + 1)));
        i = i + 1;
    }
    assert(rows@.take(rows@.len() as int) =~= rows@);
    res
}

/// The HTTP headers of a stored page, from the JSON text stored for them (if
/// any): the pairs that JSON spells, or a JSON error.
pub fn stored_headers(headers_json: Option<String>) -> (res: Result<
    Option<Vec<(String, String)>>,
    SiteError,
>)
    ensures
        match headers_json {
            None => res matches Ok(None),
            Some(json) => match headers_of_json(json@) {
                Some(pairs) => (res matches Ok(Some(headers)) && headers.deep_view() == pairs),
                None => (res matches Err(e) && e is Json),
            },
        },
{
    match headers_json {
        Some(json) => match headers_from_json(json.as_str()) {
            Ok(headers) => Ok(Some(headers)),
            Err(e) => Err(SiteError::Json(e)),
        },
        None => Ok(None),
    }
}

/// The contents of a stored page: the stored bytes themselves, or, when the
/// page was stored compressed with a zstd dictionary, what they decode to with
/// that dictionary (an I/O error when they do not decode).
pub fn stored_contents(content: Vec<u8>, dictionary: Option<Vec<u8>>) -> (res: Result<
    Vec<u8>,
    SiteError,
>)
    ensures
        match dictionary {
            None => (res matches Ok(bytes) && bytes@ == content@),
            Some(dict) => match zstd_decoded(content@, dict@) {
                Some(decoded) => (res matches Ok(bytes) && bytes@ == decoded),
                None => (res matches Err(e) && e is Io),
            },
        },
{
    match dictionary {
        Some(dict) => match zstd_decode_with_dictionary(content.as_slice(), dict.as_slice()) {
            Ok(decoded) => Ok(decoded),
            Err(e) => Err(SiteError::Io(e)),
        },
        None => Ok(content),
    }
}

/// A database id read as an integer, as a `u32`.
pub fn stored_id(v: Option<i64>) -> (res: Result<Option<u32>, SiteError>)
    ensures
        match v {
            None => res matches Ok(None),
            Some(i) => if 0 <= i <= u32::MAX {
                (res matches Ok(Some(n)) && n == i)
            } else {
                (res matches Err(SiteError::IntegerOutOfRange(w)) && w == i)
            },
        },
{
    match v {
        Some(i) => match integer_to_u32(i) {
            Ok(n) => Ok(Some(n)),
            Err(e) => Err(e),
        },
        None => Ok(None),
    }
}

/// A database id as read (`None` for SQL `NULL`), as the `u32` it names:
/// `Some(None)` for no id, `Some(Some(n))` for an id in range, `None` for an
/// integer out of the `u32` range.
pub open spec fn id_read_as(v: Option<i64>) -> Option<Option<u32>> {
    match v {
        None => Some(None),
        Some(i) => if 0 <= i <= u32::MAX {
            Some(Some(i as u32))
        } else {
            None
        },
    }
}

/// The row stored for a URL, from the row as read (dictionary id, header set
/// id, stored bytes): each id as a `u32`, the bytes unchanged; an
/// `IntegerOutOfRange` error if an id does not fit.
pub fn stored_row(read: Option<(Option<i64>, Option<i64>, Vec<u8>)>) -> (res: Result<
    Option<(Option<u32>, Option<u32>, Vec<u8>)>,
    SiteError,
>)
    ensures
        match read {
            None => res matches Ok(None),
            Some((d, h, c)) => if id_read_as(d) is Some && id_read_as(h) is Some {
                res matches Ok(Some((d2, h2, c2))) && d2 == id_read_as(d)->0 && h2 == id_read_as(
                    h,
                )->0 && c2@ == c@
            } else {
                res matches Err(e) && e is IntegerOutOfRange
            },
        },
{
    match read {
        None => Ok(None),
        Some((zstd_dictionary, http_response_headers, content)) => {
            let zstd_dictionary = stored_id(zstd_dictionary)?;
            let http_response_headers = stored_id(http_response_headers)?;
            Ok(Some((zstd_dictionary, http_response_headers, content)))
        },
    }
}

/// Whether `r` is the answer for a page, given the row found for its URL (its
/// dictionary id, header set id and stored bytes; `None` when no row was
/// found), the header JSON read for the header set id and the dictionary read
/// for the dictionary id: no row gives `http4xx`; a row gives its stored
/// headers as that JSON spells them, and its stored bytes, decoded with the
/// dictionary when it has one.
pub open spec fn served_from(
    row: Option<(Option<u32>, Option<u32>, Vec<u8>)>,
    headers_json: Option<String>,
    dictionary: Option<Vec<u8>>,
    r: PageResponse,
) -> bool {
    match row {
        None => r is http4xx,
        Some((d, h, c)) => match r {
            PageResponse::http200(headers, body) => {
                &&& (d is Some <==> dictionary is Some)
                &&& (h is Some <==> headers_json is Some)
                &&& match headers_json {
                    None => headers is None,
                    Some(j) => headers is Some && headers_of_json(j@) == Some(
                        headers->0.deep_view(),
                    ),
                }
                &&& match dictionary {
                    None => body@ == c@,
                    Some(k) => zstd_decoded(c@, k@) == Some(body@),
                }
            },
            _ => false,
        },
    }
}

/// The answer for a page, from the row found for its URL (`None` when there is
/// none), its headers as read for its header set id, and the dictionary read
/// for its dictionary id (each given exactly when the row names one):
/// `http4xx` without a row; otherwise `http200` of the headers and the stored
/// bytes, decoded with the dictionary when there is one.
pub fn page_response(
    row: Option<(Option<u32>, Option<u32>, Vec<u8>)>,
    headers: Option<Vec<(String, String)>>,
    dictionary: Option<Vec<u8>>,
) -> (res: Result<PageResponse, SiteError>)
    requires
        match row {
            None => headers is None && dictionary is None,
            Some((d, h, _)) => (d is Some <==> dictionary is Some) && (h is Some <==> headers is Some),
        },
    ensures
        match row {
            None => res matches Ok(PageResponse::http4xx),
            Some((_, _, c)) => match dictionary {
                None => (res matches Ok(PageResponse::http200(h, body)) && h == headers && body@
                    == c@),
                Some(k) => match zstd_decoded(c@, k@) {
                    Some(decoded) => (res matches Ok(PageResponse::http200(h, body)) && h
                        == headers && body@ == decoded),
                    None => (res matches Err(e) && e is Io),
                },
            },
        },
{
    match row {
        None => Ok(PageResponse::http4xx),
        Some((_, _, content)) => {
            let body = stored_contents(content, dictionary)?;
            Ok(PageResponse::http200(headers, into_boxed_slice(body)))
        },
    }
}

/// Whether `r` answers `url` from `direct`, the answer for exactly that URL: a
/// missing page whose URL may take a trailing slash is redirected to the URL
/// with that slash; any other answer is passed on unchanged.
pub open spec fn redirected(url: Seq<char>, direct: PageResponse, r: PageResponse) -> bool {
    if direct is http4xx && spec_can_be_slashed(url) {
        r matches PageResponse::http3xx(target) && target@ == url.push('/')
    } else {
        r == direct
    }
}

/// The answer for `url` from `direct`, the answer for exactly that URL.
pub fn redirect_or(url: &str, direct: PageResponse) -> (r: PageResponse)
    ensures
        redirected(url@, direct, r),
{
    let is_missing = match direct {
        PageResponse::http4xx => true,
        _ => false,
    };
    if is_missing && url_can_be_slashhed(url) {
        let mut target = url.to_owned();
        proof {
            reveal_strlit("/");
        }
        target.append("/");
        assert(target@ =~= url@.push('/'));
        PageResponse::http3xx(target)
    } else {
        direct
    }
}

/// Whether the 404 switch read from the metadata is on: exactly `true`.
pub open spec fn switched_on(send_flag: Option<String>) -> bool {
    send_flag matches Some(v) && v@ == "true"@
}

/// Whether `res` is the 404 contents to send, given the switch read from the
/// metadata and the contents read (when the switch is on).
pub open spec fn answers_404(
    send_flag: Option<String>,
    content: Option<String>,
    res: Result<Option<String>, SiteError>,
) -> bool {
    if switched_on(send_flag) {
        match content {
            Some(c) => res == Ok::<Option<String>, SiteError>(Some(c)),
            None => (res matches Err(e) && e is Missing404Content),
        }
    } else {
        res matches Ok(None)
    }
}

/// Whether the stored value of `send_content_for_404` switches the 404
/// contents on: it is exactly `true`.
pub fn sends_404_contents(send_flag: &Option<String>) -> (res: bool)
    ensures
        res == switched_on(*send_flag),
{
    match send_flag {
        Some(v) => str_eq(v.as_str(), "true"),
        None => false,
    }
}

/// The 404 contents to send, from the switch and the contents read.
pub fn answer_404(send_flag: Option<String>, content: Option<String>) -> (res: Result<
    Option<String>,
    SiteError,
>)
    ensures
        answers_404(send_flag, content, res),
{
    if sends_404_contents(&send_flag) {
        match content {
            Some(c) => Ok(Some(c)),
            None => Err(SiteError::Missing404Content),
        }
    } else {
        Ok(None)
    }
}

/// The check before creating a site: refused when something is at the path.
pub fn create_check(exists: bool) -> (res: Result<(), SiteError>)
    ensures
        exists ==> (res matches Err(SiteError::PathAlreadyExists)),
        !exists ==> res is Ok,
{
    if exists {
        Err(SiteError::PathAlreadyExists)
    } else {
        Ok(())
    }
}

/// The checks before opening a site: the path must exist and be a regular file.
pub fn open_check(exists: bool, is_file: bool) -> (res: Result<(), SiteError>)
    ensures
        !exists ==> (res matches Err(SiteError::PathDoesNotExist)),
        exists && !is_file ==> (res matches Err(SiteError::PathIsNotAFile)),
        exists && is_file ==> res is Ok,
{
    if !exists {
        Err(SiteError::PathDoesNotExist)
    } else if !is_file {
        Err(SiteError::PathIsNotAFile)
    } else {
        Ok(())
    }
}

/// Whether `res` answers whether a page is stored, given the count read.
pub open spec fn count_answers(count: i64, res: Result<bool, SiteError>) -> bool {
    if count >= 0 {
        res == Ok::<bool, SiteError>(count > 0)
    } else {
        res matches Err(SiteError::IntegerOutOfRange(w)) && w == count
    }
}

/// Whether a page is stored, from the number of pages stored at its URL.
pub fn page_count_answer(count: i64) -> (res: Result<bool, SiteError>)
    ensures
        count_answers(count, res),
{
    match integer_to_u64(count) {
        Ok(n) => Ok(n > 0),
        Err(e) => Err(e),
    }
}

/// Whether `res` is what switching special 404 handling gave, after the
/// stored 404 contents were read (only when switching on): refused exactly
/// when switching on while no contents are stored.
pub open spec fn sending_decided(enabled: bool, stored: Option<String>, res: Result<(), SiteError>) -> bool {
    if enabled && stored is None {
        res matches Err(SiteError::No404ContentToEnable)
    } else {
        res is Ok
    }
}

/// The value to write when switching special 404 handling, given the stored
/// 404 contents (read only when switching on): refused when switching on while
/// none are stored; otherwise the [`switch_value`] of `enabled`.
pub fn sending_value(enabled: bool, stored: &Option<String>) -> (res: Result<&'static str, SiteError>)
    ensures
        enabled && stored is None ==> (res matches Err(SiteError::No404ContentToEnable)),
        !(enabled && stored is None) ==> (res matches Ok(v) && v@ == spec_switch_value(enabled)),
{
    if enabled && stored.is_none() {
        Err(SiteError::No404ContentToEnable)
    } else {
        Ok(switch_value(enabled))
    }
}

/// A statement handed to the database to store pages: its text and its parameters.
pub type PageWrite = (Seq<char>, Seq<SqlArg>);

/// The statements that store each page of a bulk addition, in order.
pub open spec fn bulk_writes(pages: Seq<(String, Option<u32>, Vec<u8>)>) -> Seq<PageWrite> {
    Seq::new(pages.len(), |i: int| (BULK_UPSERT_PAGE_SQL@, bulk_page_args(pages[i])))
}

/// A single webpage database.
pub struct SqliteSite {
    db: rusqlite::Connection,
    /// Every statement this value has handed to the database to store pages.
    written: Ghost<Seq<PageWrite>>,
    /// The parameters of every metadata upsert this value has handed to the database.
    meta_written: Ghost<Seq<Seq<SqlArg>>>,
}

impl SqliteSite {
    /// Every statement this site has handed to the database to store pages,
    /// in order (whether or not the database then kept the page).
    pub closed spec fn page_writes(&self) -> Seq<PageWrite> {
        self.written@
    }

    /// The parameters (name, then value; see [`metadata_args`]) of every
    /// [`UPSERT_METADATA_SQL`] that this site has handed to the database
    /// through its `&mut self` methods, in order (whether or not the database
    /// then kept the value).
    pub closed spec fn metadata_writes(&self) -> Seq<Seq<SqlArg>> {
        self.meta_written@
    }

    fn from_conn(db: rusqlite::Connection) -> (site: Self)
        ensures
            site.db == db,
            site.page_writes() == Seq::<PageWrite>::empty(),
            site.metadata_writes() == Seq::<Seq<SqlArg>>::empty(),
    {
        SqliteSite { db, written: Ghost(Seq::empty()), meta_written: Ghost(Seq::empty()) }
    }

    /// Creates the tables of a site on a fresh connection.
    fn with_schema(db: rusqlite::Connection) -> (res: Result<Self, SiteError>)
        ensures
            res matches Ok(site) ==> site.db == db && site.page_writes() == Seq::<PageWrite>::empty()
                && site.metadata_writes() == Seq::<Seq<SqlArg>>::empty(),
            res matches Err(e) ==> e is Sqlite,
    {
        match execute_batch(&db, SCHEMA_SQL) {
            Ok(()) => Ok(Self::from_conn(db)),
            Err(e) => Err(SiteError::Sqlite(e)),
        }
    }

    /// Create and return a new SqliteSite for this path.
    /// Error if the path already exists: the file system's answer goes to
    /// [`create_check`].
    pub fn create(path: &PathBuf) -> (res: Result<Self, SiteError>)
        ensures
            res matches Err(e) ==> e is PathAlreadyExists || e is Sqlite,
            res matches Ok(site) ==> site.page_writes() == Seq::<PageWrite>::empty()
                && site.metadata_writes() == Seq::<Seq<SqlArg>>::empty(),
    {
        create_check(path_exists(path))?;
        match open_connection(path) {
            Ok(db) => Self::with_schema(db),
            Err(e) => Err(SiteError::Sqlite(e)),
        }
    }

    /// Create a new SqliteSite held in memory.
    pub fn create_in_memory() -> (res: Result<Self, SiteError>)
        ensures
            res matches Err(e) ==> e is Sqlite,
            res matches Ok(site) ==> site.page_writes() == Seq::<PageWrite>::empty()
                && site.metadata_writes() == Seq::<Seq<SqlArg>>::empty(),
    {
        match open_connection_in_memory() {
            Ok(db) => Self::with_schema(db),
            Err(e) => Err(SiteError::Sqlite(e)),
        }
    }

    /// Open an existing database file.
    /// Errors if it doesn't exist, or is not a file: the file system's answers
    /// go to [`open_check`].
    pub fn open(path: &PathBuf) -> (res: Result<Self, SiteError>)
        ensures
            res matches Err(e) ==> e is PathDoesNotExist || e is PathIsNotAFile || e is Sqlite,
            res matches Ok(site) ==> site.page_writes() == Seq::<PageWrite>::empty()
                && site.metadata_writes() == Seq::<Seq<SqlArg>>::empty(),
    {
        let exists = path_exists(path);
        let is_file = exists && path_is_file(path);
        open_check(exists, is_file)?;
        match open_connection(path) {
            Ok(db) => Ok(Self::from_conn(db)),
            Err(e) => Err(SiteError::Sqlite(e)),
        }
    }

    /// Open an existing file, or create it if needed.
    pub fn open_or_create(path: &PathBuf) -> (res: Result<Self, SiteError>)
        ensures
            res matches Err(e) ==> e is PathDoesNotExist || e is PathIsNotAFile
                || e is PathAlreadyExists || e is Sqlite,
            res matches Ok(site) ==> site.page_writes() == Seq::<PageWrite>::empty()
                && site.metadata_writes() == Seq::<Seq<SqlArg>>::empty(),
    {
        if path_exists(path) {
            Self::open(path)
        } else {
            Self::create(path)
        }
    }

    /// Number of URLs in this site.
    pub fn num_urls(&self) -> (res: Result<usize, SiteError>)
        ensures
            res matches Err(e) ==> e is Sqlite || e is IntegerOutOfRange,
    {
        match query_row_integer(&self.db, COUNT_URLS_SQL, &[]) {
            Ok(count) => integer_to_usize(count),
            Err(e) => Err(SiteError::Sqlite(e)),
        }
    }

    /// Return the ID of the zstd dict with those bytes, creating it if needed.
    /// If a dict already exists with exactly that binary content, return its id.
    pub fn get_or_create_zstd_dictionary(&self, zstd_dictionary_bytes: &[u8]) -> (res: Result<
        u32,
        SiteError,
    >)
        ensures
            res matches Err(e) ==> e is Sqlite || e is IntegerOutOfRange,
    {
        let params = blob_params(zstd_dictionary_bytes);
        if let Err(e) = execute(&self.db, INSERT_DICTIONARY_SQL, params.as_slice()) {
            return Err(SiteError::Sqlite(e));
        }
        match query_row_integer(&self.db, SELECT_DICTIONARY_ID_SQL, params.as_slice()) {
            Ok(id) => integer_to_u32(id),
            Err(e) => Err(SiteError::Sqlite(e)),
        }
    }

    /// Return the ID to use for those HTTP response headers, creating it if
    /// needed. The headers are stored as their [`canonical_headers_json`] text,
    /// which does not depend on the order of the headers.
    ///
    /// [`canonical_headers_json`]: crate::headers::canonical_headers_json
    pub fn get_or_create_http_response_headers_id(&self, headers: Vec<(String, String)>) -> (res:
        Result<u32, SiteError>)
        ensures
            res matches Err(e) ==> e is Sqlite || e is IntegerOutOfRange,
    {
        let params = headers_params(headers);
        if let Err(e) = execute(&self.db, INSERT_HEADERS_SQL, params.as_slice()) {
            return Err(SiteError::Sqlite(e));
        }
        match query_row_integer(&self.db, SELECT_HEADERS_ID_SQL, params.as_slice()) {
            Ok(id) => integer_to_u32(id),
            Err(e) => Err(SiteError::Sqlite(e)),
        }
    }

    /// For this URL, first canonicalise it, then get the response for it.
    /// A URL that is not canonical is redirected to its canonical form; a
    /// missing page whose URL may take a trailing slash is redirected to the
    /// URL with that slash; any other answer for the URL is passed on.
    pub fn get_c14n_url(&self, url: &str) -> (res: Result<PageResponse, SiteError>)
        ensures
            spec_c14n_url(url@) != url@ ==> (res matches Ok(PageResponse::http3xx(target))
                && target@ == spec_c14n_url(url@)),
            spec_c14n_url(url@) == url@ ==> match res {
                Ok(PageResponse::http3xx(target)) => spec_can_be_slashed(url@) && target@
                    == url@.push('/'),
                Ok(PageResponse::http4xx) => !spec_can_be_slashed(url@),
                _ => true,
            },
            spec_c14n_url(url@) == url@ ==> (res matches Ok(r) ==> exists|
                row: Option<(Option<u32>, Option<u32>, Vec<u8>)>,
                headers_json: Option<String>,
                dictionary: Option<Vec<u8>>,
                direct: PageResponse,
            |
                #[trigger] served_from(row, headers_json, dictionary, direct) && redirected(
                    url@,
                    direct,
                    r,
                )),
            res matches Ok(PageResponse::http3xx(target)) ==> is_canonical_url(target@),
            res matches Err(e) ==> e is Sqlite || e is Json || e is Io || e is IntegerOutOfRange,
    {
        let new_url = c14n_url(url);
        proof {
            lemma_c14n_url_is_canonical(url@);
            lemma_c14n_url_fixed_points(url@);
            lemma_c14n_url_w_slash_is_canonical(url@);
        }
        if !str_eq(new_url.as_str(), url) {
            return Ok(PageResponse::http3xx(new_url));
        }
        let direct_resp = self.get_url(url)?;
        let ghost direct = direct_resp;
        let ghost (row, headers_json, dictionary) = choose|
            row: Option<(Option<u32>, Option<u32>, Vec<u8>)>,
            headers_json: Option<String>,
            dictionary: Option<Vec<u8>>,
        | #[trigger] served_from(row, headers_json, dictionary, direct);
        let r = redirect_or(url, direct_resp);
        proof {
            assert(served_from(row, headers_json, dictionary, direct) && redirected(url@, direct, r));
            if spec_can_be_slashed(url@) && direct is http4xx {
                assert(spec_c14n_url_w_slash(url@) == url@.push('/'));
            }
        }
        Ok(r)
    }

    /// Look up exactly this URL in the DB & return the response: the stored
    /// page, with its stored headers and its contents decompressed with its
    /// zstd dictionary if it has one; `http4xx` if no page is stored there.
    pub fn get_url(&self, url: &str) -> (res: Result<PageResponse, SiteError>)
        ensures
            res matches Ok(r) ==> !(r is http3xx),
            res matches Ok(r) ==> exists|
                row: Option<(Option<u32>, Option<u32>, Vec<u8>)>,
                headers_json: Option<String>,
                dictionary: Option<Vec<u8>>,
            | #[trigger] served_from(row, headers_json, dictionary, r),
            res matches Err(e) ==> e is Sqlite || e is Json || e is Io || e is IntegerOutOfRange,
    {
        let read = match query_row_optional_page(&self.db, SELECT_PAGE_SQL, text_params(url).as_slice()) {
            Ok(read) => read,
            Err(e) => return Err(SiteError::Sqlite(e)),
        };
        let row = stored_row(read)?;
        let ghost stored_row = row;
        let (dictionary_id, headers_id) = match &row {
            Some((d, h, _)) => (*d, *h),
            None => (None, None),
        };
        let headers_json = match headers_id {
            Some(id) => match query_row_text(&self.db, SELECT_HEADERS_JSON_SQL, id_params(id).as_slice()) {
                Ok(json) => Some(json),
                Err(e) => return Err(SiteError::Sqlite(e)),
            },
            None => None,
        };
        let ghost stored_json = headers_json;
        let headers = stored_headers(headers_json)?;
        let dictionary = match dictionary_id {
            Some(id) => match query_row_blob(&self.db, SELECT_DICTIONARY_BYTES_SQL, id_params(id).as_slice()) {
                Ok(bytes) => Some(bytes),
                Err(e) => return Err(SiteError::Sqlite(e)),
            },
            None => None,
        };
        let ghost stored_dictionary = dictionary;
        let res = page_response(row, headers, dictionary);
        proof {
            if res is Ok {
                assert(served_from(stored_row, stored_json, stored_dictionary, res->Ok_0));
            }
        }
        res
    }

    /// Canonicalise that url (adding a trailing slash where one may be added),
    /// then add it to the site as [`Self::set_url`] does.
    pub fn set_c14n_url(
        &mut self,
        url: &str,
        zstd_dictionary: Option<u32>,
        http_headers_id: Option<u32>,
        contents: &[u8],
    ) -> (res: Result<(), SiteError>)
        ensures
            res matches Err(e) ==> e is Sqlite,
            final(self).page_writes() == old(self).page_writes().push(
                (
                    UPSERT_PAGE_SQL@,
                    page_args(spec_c14n_url_w_slash(url@), zstd_dictionary, http_headers_id, contents@),
                ),
            ),
            final(self).metadata_writes() == old(self).metadata_writes(),
    {
        let url = c14n_url_w_slash(url);
        proof {
            lemma_c14n_url_w_slash_is_canonical(url@);
        }
        self.set_url(url.as_str(), zstd_dictionary, http_headers_id, contents)
    }

    /// Set the (optionally compressed) contents of a URL to this.
    /// The contents are not compressed here, the zstd_dictionary_id will be taken raw.
    /// The URL is not canonicalised or changed, but must start with `/`.
    /// If there is already a page for that URL, it is silently overwritten.
    pub fn set_url(
        &mut self,
        url: &str,
        zstd_dictionary: Option<u32>,
        http_headers_id: Option<u32>,
        contents: &[u8],
    ) -> (res: Result<(), SiteError>)
        ensures
            !starts_with_slash(url@) ==> res matches Err(SiteError::UrlNotAbsolute),
            starts_with_slash(url@) ==> (res matches Err(e) ==> e is Sqlite),
            !starts_with_slash(url@) ==> final(self).page_writes() == old(self).page_writes(),
            starts_with_slash(url@) ==> final(self).page_writes() == old(self).page_writes().push(
                (UPSERT_PAGE_SQL@, page_args(url@, zstd_dictionary, http_headers_id, contents@)),
            ),
            final(self).metadata_writes() == old(self).metadata_writes(),
    {
        let n = url.unicode_len();
        if n == 0 || url.get_char(0) != '/' {
            return Err(SiteError::UrlNotAbsolute);
        }
        let params = page_params(url, zstd_dictionary, http_headers_id, contents);
        self.write_page(UPSERT_PAGE_SQL, params)
    }

    /// Hands `sql` with `params` to the database to store a page, and records it.
    fn write_page(&mut self, sql: &str, params: Vec<SqlParam>) -> (res: Result<(), SiteError>)
        ensures
            res matches Err(e) ==> e is Sqlite,
            final(self).page_writes() == old(self).page_writes().push((sql@, params.deep_view())),
            final(self).metadata_writes() == old(self).metadata_writes(),
    {
        let res = execute(&self.db, sql, params.as_slice());
        self.written = Ghost(self.written@.push((sql@, params.deep_view())));
        match res {
            Ok(_) => Ok(()),
            Err(e) => Err(SiteError::Sqlite(e)),
        }
    }

    /// Add many pages in one transaction. Each page is a URL, an optional zstd
    /// dictionary id and its contents; neither the URL nor the contents may be empty.
    pub fn set_bulk(&mut self, input_data: Vec<(String, Option<u32>, Vec<u8>)>) -> (res: Result<
        (),
        SiteError,
    >)
        requires
            forall|i: int|
                0 <= i < input_data@.len() ==> (#[trigger] input_data@[i]).0@.len() > 0
                    && input_data@[i].2@.len() > 0,
        ensures
            res matches Err(e) ==> e is Sqlite,
            res is Ok ==> final(self).page_writes() == old(self).page_writes() + bulk_writes(
                input_data@,
            ),
            exists|k: int|
                0 <= k <= input_data@.len() && final(self).page_writes() == old(self).page_writes()
                    + #[trigger] bulk_writes(input_data@).take(k),
            final(self).metadata_writes() == old(self).metadata_writes(),
    {
        let ghost before = self.written@;
        assert(before =~= before + bulk_writes(input_data@).take(0));
        let txn = match begin_transaction(&mut self.db) {
            Ok(txn) => txn,
            Err(e) => return Err(SiteError::Sqlite(e)),
        };
        let conn = transaction_connection(&txn);
        if let Err(e) = prepare_cached(conn, BULK_UPSERT_PAGE_SQL) {
            return Err(SiteError::Sqlite(e));
        }
        let mut i: usize = 0;
        while i < input_data.len()
            invariant
                i <= input_data@.len(),
                before == old(self).page_writes(),
                self.meta_written@ == old(self).metadata_writes(),
                self.written@ == before + bulk_writes(input_data@).take(i as int),
            decreases input_data@.len() - i,
        {
            let params = bulk_page_params(&input_data[i]);
            let done = execute_cached(conn, BULK_UPSERT_PAGE_SQL, params.as_slice());
            self.written = Ghost(self.written@.push((BULK_UPSERT_PAGE_SQL@, params.deep_view())));
            assert(bulk_writes(input_data@).take(i + 1) =~= bulk_writes(input_data@).take(
                i as int,
            ).push((BULK_UPSERT_PAGE_SQL@, bulk_page_args(input_data@[i as int]))));
            assert(self.written@ =~= before + bulk_writes(input_data@).take(i + 1));
            if let Err(e) = done {
                return Err(SiteError::Sqlite(e));
            }
            i = i + 1;
        }
        assert(bulk_writes(input_data@).take(i as int) =~= bulk_writes(input_data@));
        match commit(txn) {
            Ok(()) => Ok(()),
            Err(e) => Err(SiteError::Sqlite(e)),
        }
    }

    /// Returns a list of all URLs in this site, in order, at most `limit` of them.
    pub fn urls(&self, limit: Option<usize>) -> (res: Result<Box<[String]>, SiteError>)
        ensures
            res matches Err(e) ==> e is Sqlite || e is IntegerOutOfRange,
    {
        // The number of URLs sizes the result; an error in counting them is reported.
        let capacity = self.num_urls()?;
        let sql = urls_sql(limit);
        match query_column_texts(&self.db, sql.as_str(), &[]) {
            Ok(rows) => Ok(into_boxed_slice(keep_ok_rows(&rows, capacity))),
            Err(e) => Err(SiteError::Sqlite(e)),
        }
    }

    /// The URLs that match this SQL `LIKE` pattern, in order.
    pub fn search_urls(&self, url_pattern: &str) -> (res: Result<Box<[String]>, SiteError>)
        ensures
            res matches Err(e) ==> e is Sqlite,
    {
        match query_column_texts(&self.db, SEARCH_URLS_SQL, text_params(url_pattern).as_slice()) {
            Ok(rows) => Ok(into_boxed_slice(keep_ok_rows(&rows, 0))),
            Err(e) => Err(SiteError::Sqlite(e)),
        }
    }

    /// The URLs whose JSON-encoded HTTP headers match this SQL `LIKE` pattern, in order.
    pub fn search_headers(&self, pattern: &str) -> (res: Result<Box<[String]>, SiteError>)
        ensures
            res matches Err(e) ==> e is Sqlite,
    {
        match query_column_texts(&self.db, SEARCH_HEADERS_SQL, text_params(pattern).as_slice()) {
            Ok(rows) => Ok(into_boxed_slice(keep_ok_rows(&rows, 0))),
            Err(e) => Err(SiteError::Sqlite(e)),
        }
    }

    /// Start doing a bulk addition of pages.
    pub fn start_bulk(&mut self) -> (res: Result<BulkSqliteSiteAdder<'_>, SiteError>)
        ensures
            res matches Err(e) ==> e is Sqlite,
    {
        BulkSqliteSiteAdder::from_site(self)
    }

    /// Gets a metadata value; `None` if this value doesn't exist.
    pub fn metadata(&self, name: &str) -> (res: Result<Option<String>, SiteError>)
        ensures
            res matches Err(e) ==> e is Sqlite,
    {
        match query_row_optional_text(&self.db, SELECT_METADATA_SQL, text_params(name).as_slice()) {
            Ok(value) => Ok(value),
            Err(e) => Err(SiteError::Sqlite(e)),
        }
    }

    /// Sets a metadata value.
    pub fn set_metadata(&self, name: &str, value: &str) -> (res: Result<(), SiteError>)
        ensures
            res matches Err(e) ==> e is Sqlite,
    {
        match execute(&self.db, UPSERT_METADATA_SQL, metadata_params(name, value).as_slice()) {
            Ok(_) => Ok(()),
            Err(e) => Err(SiteError::Sqlite(e)),
        }
    }

    /// The contents to send with a 404 response, if sending them is enabled
    /// (the metadata `send_content_for_404` is `true`); an error if it is
    /// enabled but no such contents are stored.
    pub fn contents_for_404(&self) -> (res: Result<Option<String>, SiteError>)
        ensures
            res matches Err(e) ==> e is Sqlite || e is Missing404Content,
            !(res matches Err(SiteError::Sqlite(_))) ==> exists|
                send_flag: Option<String>,
                content: Option<String>,
            | #[trigger] answers_404(send_flag, content, res),
    {
        let send_flag = self.metadata(SEND_404_NAME)?;
        let content = if sends_404_contents(&send_flag) {
            self.metadata(CONTENT_404_NAME)?
        } else {
            None
        };
        let ghost (flag, stored) = (send_flag, content);
        let res = answer_404(send_flag, content);
        proof {
            assert(answers_404(flag, stored, res));
        }
        res
    }

    /// Hands the database the metadata upsert with `params`, and records it.
    fn write_metadata(&mut self, params: Vec<SqlParam>) -> (res: Result<(), SiteError>)
        ensures
            res matches Err(e) ==> e is Sqlite,
            final(self).metadata_writes() == old(self).metadata_writes().push(params.deep_view()),
            final(self).page_writes() == old(self).page_writes(),
    {
        let res = execute(&self.db, UPSERT_METADATA_SQL, params.as_slice());
        self.meta_written = Ghost(self.meta_written@.push(params.deep_view()));
        match res {
            Ok(_) => Ok(()),
            Err(e) => Err(SiteError::Sqlite(e)),
        }
    }

    /// Stores the contents to send with a 404 response, and enables sending them.
    pub fn set_contents_for_404(&mut self, content: &str) -> (res: Result<(), SiteError>)
        ensures
            res matches Err(e) ==> e is Sqlite,
            res is Ok ==> final(self).metadata_writes() == old(self).metadata_writes().push(
                metadata_args(CONTENT_404_NAME@, content@),
            ).push(metadata_args(SEND_404_NAME@, spec_switch_value(true))),
            res is Err ==> final(self).metadata_writes() == old(self).metadata_writes().push(
                metadata_args(CONTENT_404_NAME@, content@),
            ) || final(self).metadata_writes() == old(self).metadata_writes().push(
                metadata_args(CONTENT_404_NAME@, content@),
            ).push(metadata_args(SEND_404_NAME@, spec_switch_value(true))),
            final(self).page_writes() == old(self).page_writes(),
    {
        self.write_metadata(metadata_params(CONTENT_404_NAME, content))?;
        self.write_metadata(metadata_params(SEND_404_NAME, switch_value(true)))?;
        Ok(())
    }

    /// Switches special 404 handling by writing `true` or `false` to the
    /// metadata `content_for_404` (the value that [`Self::contents_for_404`]
    /// reads as the contents, not the `send_content_for_404` switch). Writing
    /// `true` is refused while `content_for_404` is unset.
    pub fn set_content_404_sending(&mut self, enabled: bool) -> (res: Result<(), SiteError>)
        ensures
            res matches Err(e) ==> e is Sqlite || (enabled && e is No404ContentToEnable),
            !(res matches Err(SiteError::Sqlite(_))) ==> exists|stored: Option<String>|
                #[trigger] sending_decided(enabled, stored, res),
            res is Ok ==> final(self).metadata_writes() == old(self).metadata_writes().push(
                metadata_args(CONTENT_404_NAME@, spec_switch_value(enabled)),
            ),
            res matches Err(SiteError::No404ContentToEnable) ==> final(self).metadata_writes()
                == old(self).metadata_writes(),
            res matches Err(SiteError::Sqlite(_)) ==> final(self).metadata_writes()
                == old(self).metadata_writes() || final(self).metadata_writes()
                == old(self).metadata_writes().push(
                metadata_args(CONTENT_404_NAME@, spec_switch_value(enabled)),
            ),
            final(self).page_writes() == old(self).page_writes(),
    {
        let stored = if enabled {
            self.metadata(CONTENT_404_NAME)?
        } else {
            None
        };
        let value = match sending_value(enabled, &stored) {
            Ok(value) => value,
            Err(e) => {
                let res = Err(e);
                assert(sending_decided(enabled, stored, res));
                return res;
            },
        };
        self.write_metadata(metadata_params(CONTENT_404_NAME, value))?;
        assert(sending_decided(enabled, stored, Ok(())));
        Ok(())
    }

    /// [`Self::set_content_404_sending`] with `true`.
    pub fn enable_404_content(&mut self) -> (res: Result<(), SiteError>)
        ensures
            res matches Err(e) ==> e is Sqlite || e is No404ContentToEnable,
            !(res matches Err(SiteError::Sqlite(_))) ==> exists|stored: Option<String>|
                #[trigger] sending_decided(true, stored, res),
            res is Ok ==> final(self).metadata_writes() == old(self).metadata_writes().push(
                metadata_args(CONTENT_404_NAME@, spec_switch_value(true)),
            ),
            res matches Err(SiteError::No404ContentToEnable) ==> final(self).metadata_writes()
                == old(self).metadata_writes(),
            final(self).page_writes() == old(self).page_writes(),
    {
        self.set_content_404_sending(true)
    }

    /// [`Self::set_content_404_sending`] with `false`.
    pub fn disable_404_content(&mut self) -> (res: Result<(), SiteError>)
        ensures
            res matches Err(e) ==> e is Sqlite,
            !(res matches Err(SiteError::Sqlite(_))) ==> res is Ok,
            res is Ok ==> final(self).metadata_writes() == old(self).metadata_writes().push(
                metadata_args(CONTENT_404_NAME@, spec_switch_value(false)),
            ),
            final(self).page_writes() == old(self).page_writes(),
    {
        self.set_content_404_sending(false)
    }
}

/// Helper struct to add many pages quicker by using prepared queries and transactions.
pub struct BulkSqliteSiteAdder<'a> {
    txn: rusqlite::Transaction<'a>,
    /// Every statement this adder has handed to the database to store pages.
    added: Ghost<Seq<PageWrite>>,
    /// Every page count read by [`Self::url_exists`]: the parameters of the
    /// [`COUNT_URL_SQL`] handed to the database, and the count it answered.
    counted: Ghost<Seq<(Seq<SqlArg>, i64)>>,
}

/// The parameters with which the page count for `url` is looked up: the
/// canonical form of `url`, with a trailing slash where one may be added.
pub open spec fn url_lookup_args(url: Seq<char>) -> Seq<SqlArg> {
    seq![SqlArg::Text(spec_c14n_url_w_slash(url))]
}

impl<'a> BulkSqliteSiteAdder<'a> {
    /// Every statement this adder has handed to the database to store pages,
    /// in order (whether or not the database then kept the page).
    pub closed spec fn page_writes(&self) -> Seq<PageWrite> {
        self.added@
    }

    /// Every page count this adder has read, in order: the parameters of the
    /// [`COUNT_URL_SQL`] handed to the database, and the count it answered.
    pub closed spec fn page_counts(&self) -> Seq<(Seq<SqlArg>, i64)> {
        self.counted@
    }

    /// Begins a transaction on the site, for adding pages to it.
    pub fn from_site(site: &'a mut SqliteSite) -> (res: Result<Self, SiteError>)
        ensures
            res matches Err(e) ==> e is Sqlite,
            res matches Ok(adder) ==> adder.page_writes() == Seq::<PageWrite>::empty()
                && adder.page_counts() == Seq::<(Seq<SqlArg>, i64)>::empty(),
    {
        let txn = match begin_transaction(&mut site.db) {
            Ok(txn) => txn,
            Err(e) => return Err(SiteError::Sqlite(e)),
        };
        if let Err(e) = prepare_cached(transaction_connection(&txn), INSERT_PAGE_SQL) {
            return Err(SiteError::Sqlite(e));
        }
        Ok(BulkSqliteSiteAdder { txn, added: Ghost(Seq::empty()), counted: Ghost(Seq::empty()) })
    }

    /// Whether a page is stored at the canonical form (with trailing slash where
    /// one may be added) of `url`: the count of pages at that URL is read, and
    /// the answer is whether it is positive.
    pub fn url_exists(&mut self, url: &str) -> (res: Result<bool, SiteError>)
        ensures
            res matches Err(e) ==> e is Sqlite || e is IntegerOutOfRange,
            res matches Err(SiteError::Sqlite(_)) ==> final(self).page_counts() == old(self).page_counts(),
            !(res matches Err(SiteError::Sqlite(_))) ==> exists|count: i64| #[trigger] count_answers(
                count,
                res,
            ),
            !(res matches Err(SiteError::Sqlite(_))) ==> {
                &&& final(self).page_counts().len() == old(self).page_counts().len() + 1
                &&& final(self).page_counts().drop_last() == old(self).page_counts()
                &&& final(self).page_counts().last().0 == url_lookup_args(url@)
                &&& count_answers(final(self).page_counts().last().1, res)
            },
            final(self).page_writes() == old(self).page_writes(),
    {
        let params = canonical_url_params(url);
        let read = query_row_integer_cached(
            transaction_connection(&self.txn),
            COUNT_URL_SQL,
            params.as_slice(),
        );
        match read {
            Ok(count) => {
                self.counted = Ghost(self.counted@.push((params.deep_view(), count)));
                assert(self.counted@.drop_last() =~= old(self).page_counts());
                page_count_answer(count)
            },
            Err(e) => Err(SiteError::Sqlite(e)),
        }
    }

    /// Adds a page at the canonical form (with trailing slash where one may be
    /// added) of `url`; its contents may not be empty.
    pub fn add_unique_url(
        &mut self,
        url: &str,
        zstd_dictionary: Option<u32>,
        http_headers_id: Option<u32>,
        contents: &[u8],
    ) -> (res: Result<(), SiteError>)
        ensures
            contents@.len() == 0 ==> res matches Err(SiteError::EmptyContents),
            contents@.len() > 0 ==> (res matches Err(e) ==> e is Sqlite),
            contents@.len() == 0 ==> final(self).page_writes() == old(self).page_writes(),
            final(self).page_counts() == old(self).page_counts(),
            contents@.len() > 0 ==> final(self).page_writes() == old(self).page_writes().push(
                (
                    INSERT_PAGE_SQL@,
                    page_args(spec_c14n_url_w_slash(url@), zstd_dictionary, http_headers_id, contents@),
                ),
            ),
    {
        if contents.len() == 0 {
            return Err(SiteError::EmptyContents);
        }
        let params = canonical_page_params(url, zstd_dictionary, http_headers_id, contents);
        let done = execute_cached(transaction_connection(&self.txn), INSERT_PAGE_SQL, params.as_slice());
        self.added = Ghost(self.added@.push((INSERT_PAGE_SQL@, params.deep_view())));
        match done {
            Ok(_) => Ok(()),
            Err(e) => Err(SiteError::Sqlite(e)),
        }
    }

    /// Commits every page added.
    pub fn finish(self) -> (res: Result<(), SiteError>)
        ensures
            res matches Err(e) ==> e is Sqlite,
    {
        let BulkSqliteSiteAdder { txn, .. } = self;
        flush_prepared_statement_cache(transaction_connection(&txn));
        match commit(txn) {
            Ok(()) => Ok(()),
            Err(e) => Err(SiteError::Sqlite(e)),
        }
    }
}

/// `url_exists(url)` reads the page count at the very URL where
/// `add_unique_url(url, ..)` stores the page: the canonical form of `url` with
/// a trailing slash where one may be added. Asking for that URL itself reads
/// the same count, and a canonical URL that cannot take a trailing slash is
/// looked up as it is.
pub proof fn lemma_url_exists_counts_where_pages_are_added(
    url: Seq<char>,
    zstd_dictionary: Option<u32>,
    http_headers_id: Option<u32>,
    contents: Seq<u8>,
)
    ensures
        url_lookup_args(url) == seq![
            page_args(spec_c14n_url_w_slash(url), zstd_dictionary, http_headers_id, contents)[0],
        ],
        url_lookup_args(spec_c14n_url_w_slash(url)) == url_lookup_args(url),
        is_canonical_url(url) && !spec_can_be_slashed(url) ==> url_lookup_args(url) == seq![
            SqlArg::Text(url),
        ],
{
    lemma_c14n_url_w_slash_idempotent(url);
    lemma_c14n_url_fixed_points(url);
}

/// A page whose stored row names a zstd dictionary is served with its stored
/// bytes decoded by that dictionary, whether or not the row also names a
/// header set; a row that names no dictionary is served with its bytes as
/// stored.
pub proof fn lemma_stored_dictionary_decodes_the_body(
    d: Option<u32>,
    h: Option<u32>,
    stored: Vec<u8>,
    headers_json: Option<String>,
    dictionary: Option<Vec<u8>>,
    r: PageResponse,
)
    requires
        served_from(Some((d, h, stored)), headers_json, dictionary, r),
    ensures
        r matches PageResponse::http200(_, body) && match d {
            Some(_) => dictionary matches Some(k) && zstd_decoded(stored@, k@) == Some(body@),
            None => dictionary is None && body@ == stored@,
        },
{
}

/// For a canonical URL, the answer is the answer for exactly that URL, with one
/// change: a missing page whose URL may take a trailing slash is redirected to
/// the URL with that slash. In particular a page found there is served as found.
pub proof fn lemma_canonical_url_answer(url: Seq<char>, direct: PageResponse, r: PageResponse)
    requires
        is_canonical_url(url),
        redirected(url, direct, r),
    ensures
        !(direct is http4xx && spec_can_be_slashed(url)) ==> r == direct,
        direct is http200 ==> r == direct,
        direct is http4xx && spec_can_be_slashed(url) ==> (r matches PageResponse::http3xx(target)
            && target@ == url.push('/') && target@ == spec_c14n_url_w_slash(url)),
{
    lemma_c14n_url_fixed_points(url);
}

} // verus!
