//! The SQL statements that a site runs, and the parameters bound to each: the
//! text of every statement is a constant here, and every parameter list is
//! built by a function whose contract gives it exactly.
use crate::db::{json_of_headers, SqlArg, SqlParam};
use crate::headers::{canonical_headers_json, sorted_headers_of};
use crate::url::{c14n_url_w_slash, spec_c14n_url_w_slash};
use vstd::prelude::*;

verus! {

/// The tables of a site database.
pub const SCHEMA_SQL: &'static str = "CREATE TABLE IF NOT EXISTS zstd_dictionaries (id INTEGER PRIMARY KEY, bytes BLOB NOT NULL UNIQUE);
CREATE TABLE IF NOT EXISTS http_response_headers (id INTEGER PRIMARY KEY, headers_json TEXT NOT NULL UNIQUE);
CREATE TABLE IF NOT EXISTS urls (url TEXT NOT NULL PRIMARY KEY, zstd_dictionary INTEGER REFERENCES zstd_dictionaries (id), http_response_headers INTEGER REFERENCES http_response_headers (id), contents BLOB NOT NULL);
CREATE TABLE IF NOT EXISTS metadata (name TEXT NOT NULL PRIMARY KEY, value TEXT);
";

/// Counts the stored pages.
pub const COUNT_URLS_SQL: &'static str = "SELECT COUNT(*) FROM urls;";

/// Stores a dictionary (`?1`: its bytes) unless it is stored already.
pub const INSERT_DICTIONARY_SQL: &'static str = "INSERT OR IGNORE INTO zstd_dictionaries (bytes) VALUES (?1);";

/// The id of the dictionary with the bytes `?1`.
pub const SELECT_DICTIONARY_ID_SQL: &'static str = "SELECT id FROM zstd_dictionaries WHERE bytes = ?1;";

/// Stores a header set (`?1`: its JSON text) unless it is stored already.
pub const INSERT_HEADERS_SQL: &'static str = "INSERT OR IGNORE INTO http_response_headers (headers_json) VALUES (?1);";

/// The id of the header set with the JSON text `?1`.
pub const SELECT_HEADERS_ID_SQL: &'static str = "SELECT id FROM http_response_headers WHERE headers_json = ?1;";

/// The dictionary id, header set id and contents of the page at the URL `?1`.
pub const SELECT_PAGE_SQL: &'static str = "SELECT zstd_dictionary, http_response_headers, contents FROM urls WHERE url = ?1;";

/// The JSON text of the header set with the id `?1`.
pub const SELECT_HEADERS_JSON_SQL: &'static str = "SELECT headers_json FROM http_response_headers WHERE id = ?1;";

/// The bytes of the dictionary with the id `?1`.
pub const SELECT_DICTIONARY_BYTES_SQL: &'static str = "SELECT bytes FROM zstd_dictionaries WHERE id = ?1;";

/// Stores the page `?1` with dictionary id `?2`, header set id `?3` and
/// contents `?4`, replacing any page stored at that URL.
pub const UPSERT_PAGE_SQL: &'static str = "INSERT INTO urls (url, zstd_dictionary, http_response_headers, contents) VALUES (?1, ?2, ?3, ?4) ON CONFLICT (url) DO UPDATE SET zstd_dictionary = ?2, http_response_headers = ?3, contents = ?4;";

/// Stores the page `?1` with dictionary id `?2` and contents `?3`; for a URL
/// already stored, its update sets the dictionary to `?1` and the contents to `?2`.
pub const BULK_UPSERT_PAGE_SQL: &'static str = "INSERT INTO urls (url, zstd_dictionary, contents) VALUES (?1, ?2, ?3) ON CONFLICT (url) DO UPDATE SET zstd_dictionary = ?1, contents = ?2;";

/// Adds the page `?1` with dictionary id `?2`, header set id `?3` and contents
/// `?4`; fails for a URL already stored.
pub const INSERT_PAGE_SQL: &'static str = "INSERT INTO urls (url, zstd_dictionary, http_response_headers, contents) VALUES (?1, ?2, ?3, ?4);";

/// The stored URLs that match the `LIKE` pattern `?1`, in order.
pub const SEARCH_URLS_SQL: &'static str = "SELECT url FROM urls WHERE url LIKE ?1 ORDER BY url;";

/// The stored URLs whose header JSON matches the `LIKE` pattern `?1`, in order.
pub const SEARCH_HEADERS_SQL: &'static str = "select url from urls where http_response_headers IN (select id from http_response_headers where headers_json LIKE ?1) order by url;";

/// The value of the metadata named `?1`.
pub const SELECT_METADATA_SQL: &'static str = "SELECT value FROM metadata WHERE name = ?1;";

/// Sets the metadata named `?1` to `?2`.
pub const UPSERT_METADATA_SQL: &'static str = "INSERT INTO metadata (name, value) VALUES (?1, ?2) ON CONFLICT(name) DO UPDATE SET value = excluded.value;";

/// Counts the pages stored at the URL `?1`.
pub const COUNT_URL_SQL: &'static str = "SELECT COUNT(*) FROM urls WHERE url = ?1;";

/// The metadata that switches the special 404 contents on.
pub const SEND_404_NAME: &'static str = "send_content_for_404";

/// The metadata that holds the special 404 contents.
pub const CONTENT_404_NAME: &'static str = "content_for_404";

/// A nullable `u32` as bound to SQL.
pub open spec fn optional_arg(v: Option<u32>) -> SqlArg {
    match v {
        Some(n) => SqlArg::Integer(n as i64),
        None => SqlArg::Null,
    }
}

/// The parameters that store a page: its URL, dictionary id, header set id and
/// contents.
pub open spec fn page_args(url: Seq<char>, zstd_dictionary: Option<u32>, http_headers_id: Option<u32>, contents: Seq<u8>) -> Seq<SqlArg> {
    seq![
        SqlArg::Text(url),
        optional_arg(zstd_dictionary),
        optional_arg(http_headers_id),
        SqlArg::Blob(contents),
    ]
}

/// The parameters that store one page of a bulk addition: its URL, dictionary
/// id and contents.
pub open spec fn bulk_page_args(page: (String, Option<u32>, Vec<u8>)) -> Seq<SqlArg> {
    seq![SqlArg::Text(page.0@), optional_arg(page.1), SqlArg::Blob(page.2@)]
}

/// A nullable `u32` as an SQL parameter.
pub fn optional_param(v: Option<u32>) -> (p: SqlParam)
    ensures
        p.deep_view() == optional_arg(v),
{
    match v {
        Some(n) => SqlParam::Integer(n as i64),
        None => SqlParam::Null,
    }
}

/// The single parameter `text`.
pub fn text_params(text: &str) -> (params: Vec<SqlParam>)
    ensures
        params.deep_view() == seq![SqlArg::Text(text@)],
{
    let mut params = Vec::new();
    params.push(SqlParam::Text(text.to_owned()));
    assert(params.deep_view() =~= seq![SqlArg::Text(text@)]);
    params
}

/// The single parameter `bytes`.
pub fn blob_params(bytes: &[u8]) -> (params: Vec<SqlParam>)
    ensures
        params.deep_view() == seq![SqlArg::Blob(bytes@)],
{
    let mut params = Vec::new();
    params.push(SqlParam::Blob(vstd::slice::slice_to_vec(bytes)));
    assert(params.deep_view() =~= seq![SqlArg::Blob(bytes@)]);
    params
}

/// The single parameter `id`.
pub fn id_params(id: u32) -> (params: Vec<SqlParam>)
    ensures
        params.deep_view() == seq![SqlArg::Integer(id as i64)],
{
    let mut params = Vec::new();
    params.push(SqlParam::Integer(id as i64));
    assert(params.deep_view() =~= seq![SqlArg::Integer(id as i64)]);
    params
}

/// The single parameter naming a header set: the JSON text of its pairs in
/// ascending order.
pub fn headers_params(headers: Vec<(String, String)>) -> (params: Vec<SqlParam>)
    ensures
        params.deep_view() == seq![
            SqlArg::Text(json_of_headers(sorted_headers_of(headers.deep_view().to_multiset()))),
        ],
{
    let mut params = Vec::new();
    params.push(SqlParam::Text(canonical_headers_json(headers)));
    assert(params.deep_view() =~= seq![
        SqlArg::Text(json_of_headers(sorted_headers_of(headers.deep_view().to_multiset()))),
    ]);
    params
}

/// The parameters of [`UPSERT_PAGE_SQL`]: the URL as given, the dictionary id,
/// the header set id and the contents.
pub fn page_params(
    url: &str,
    zstd_dictionary: Option<u32>,
    http_headers_id: Option<u32>,
    contents: &[u8],
) -> (params: Vec<SqlParam>)
    ensures
        params.deep_view() == page_args(url@, zstd_dictionary, http_headers_id, contents@),
{
    let mut params = Vec::new();
    params.push(SqlParam::Text(url.to_owned()));
    params.push(optional_param(zstd_dictionary));
    params.push(optional_param(http_headers_id));
    params.push(SqlParam::Blob(vstd::slice::slice_to_vec(contents)));
    assert(params.deep_view() =~= seq![
        SqlArg::Text(url@),
        optional_arg(zstd_dictionary),
        optional_arg(http_headers_id),
        SqlArg::Blob(contents@),
    ]);
    params
}

/// The parameters of [`INSERT_PAGE_SQL`] for a bulk addition: the canonical form
/// (with trailing slash where one may be added) of the URL, the dictionary id,
/// the header set id and the contents.
pub fn canonical_page_params(
    url: &str,
    zstd_dictionary: Option<u32>,
    http_headers_id: Option<u32>,
    contents: &[u8],
) -> (params: Vec<SqlParam>)
    ensures
        params.deep_view() == page_args(
            spec_c14n_url_w_slash(url@),
            zstd_dictionary,
            http_headers_id,
            contents@,
        ),
{
    let canonical = c14n_url_w_slash(url);
    page_params(canonical.as_str(), zstd_dictionary, http_headers_id, contents)
}

/// The single parameter holding the canonical form (with trailing slash where
/// one may be added) of `url`.
pub fn canonical_url_params(url: &str) -> (params: Vec<SqlParam>)
    ensures
        params.deep_view() == seq![SqlArg::Text(spec_c14n_url_w_slash(url@))],
{
    let canonical = c14n_url_w_slash(url);
    text_params(canonical.as_str())
}

/// The parameters of [`BULK_UPSERT_PAGE_SQL`] for one page: its URL, its
/// dictionary id and its contents.
pub fn bulk_page_params(page: &(String, Option<u32>, Vec<u8>)) -> (params: Vec<SqlParam>)
    ensures
        params.deep_view() == bulk_page_args(*page),
{
    let mut params = Vec::new();
    params.push(SqlParam::Text(page.0.clone()));
    params.push(optional_param(page.1));
    params.push(SqlParam::Blob(page.2.clone()));
    assert(params.deep_view() =~= seq![
        SqlArg::Text(page.0@),
        optional_arg(page.1),
        SqlArg::Blob(page.2@),
    ]);
    params
}

/// The parameters that set the metadata `name` to `value`.
pub open spec fn metadata_args(name: Seq<char>, value: Seq<char>) -> Seq<SqlArg> {
    seq![SqlArg::Text(name), SqlArg::Text(value)]
}

/// The parameters of [`UPSERT_METADATA_SQL`]: the name and the value.
pub fn metadata_params(name: &str, value: &str) -> (params: Vec<SqlParam>)
    ensures
        params.deep_view() == metadata_args(name@, value@),
{
    let mut params = Vec::new();
    params.push(SqlParam::Text(name.to_owned()));
    params.push(SqlParam::Text(value.to_owned()));
    assert(params.deep_view() =~= seq![SqlArg::Text(name@), SqlArg::Text(value@)]);
    params
}

/// The decimal digits of `n`, most significant first.
pub open spec fn decimal(n: nat) -> Seq<char>
    decreases n,
{
    if n < 10 {
        seq![((n + 48) as u8) as char]
    } else {
        decimal(n / 10).push((((n % 10) + 48) as u8) as char)
    }
}

/// Appends the decimal digits of `n` to `s`.
fn push_decimal(s: &mut String, n: usize)
    ensures
        final(s)@ == old(s)@ + decimal(n as nat),
    decreases n,
{
    if n >= 10 {
        push_decimal(s, n / 10);
    }
    let d = n % 10;
    proof {
        reveal_strlit("0123456789");
    }
    let digit = "0123456789".substring_char(d, d + 1);
    s.append(digit);
    proof {
        assert(digit@ =~= seq![((d + 48) as u8) as char]);
    }
    assert(s@ =~= old(s)@ + decimal(n as nat)) by {
        if n >= 10 {
            assert(decimal(n as nat) == decimal((n / 10) as nat).push((((n % 10) + 48) as u8) as char));
        }
    }
}

/// The text of the statement listing the stored URLs in order, with a `LIMIT`
/// clause of `limit` when there is one.
pub fn urls_sql(limit: Option<usize>) -> (sql: String)
    ensures
        sql@ == "SELECT url FROM urls ORDER BY url "@ + match limit {
            Some(n) => " LIMIT "@ + decimal(n as nat),
            None => Seq::<char>::empty(),
        } + ";"@,
{
    let mut sql = "SELECT url FROM urls ORDER BY url ".to_owned();
    let ghost start = sql@;
    if let Some(limit) = limit {
        sql.append(" LIMIT ");
        push_decimal(&mut sql, limit);
        assert(sql@ =~= start + (" LIMIT "@ + decimal(limit as nat)));
    } else {
        assert(sql@ =~= start + Seq::<char>::empty());
    }
    sql.append(";");
    sql
}

/// The text of a switch: `true` or `false`.
pub open spec fn spec_switch_value(enabled: bool) -> Seq<char> {
    if enabled {
        "true"@
    } else {
        "false"@
    }
}

/// The value that switches special 404 handling: `true` or `false`.
pub fn switch_value(enabled: bool) -> (value: &'static str)
    ensures
        value@ == spec_switch_value(enabled),
{
    if enabled {
        "true"
    } else {
        "false"
    }
}

} // verus!
