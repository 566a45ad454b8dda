//! The calls into `rusqlite`, `serde_json`, `zstd` and std that the page store
//! makes. What a database read returns depends on what is on disk, so those
//! calls promise nothing of their results.
use rusqlite::OptionalExtension;
use std::io::Read;
use std::path::PathBuf;
use crate::headers::header_le;
use vstd::prelude::*;

verus! {

/// A value bound to a `?N` placeholder of an SQL statement.
#[derive(Debug, PartialEq)]
pub enum SqlParam {
    Null,
    Integer(i64),
    Text(String),
    Blob(Vec<u8>),
}

/// What an [`SqlParam`] binds, as plain values.
pub enum SqlArg {
    Null,
    Integer(i64),
    Text(Seq<char>),
    Blob(Seq<u8>),
}

impl DeepView for SqlParam {
    type V = SqlArg;

    open spec fn deep_view(&self) -> SqlArg {
        match self {
            SqlParam::Null => SqlArg::Null,
            SqlParam::Integer(i) => SqlArg::Integer(*i),
            SqlParam::Text(s) => SqlArg::Text(s@),
            SqlParam::Blob(b) => SqlArg::Blob(b@),
        }
    }
}

/// `Path::exists` of std: whether something is at `path` on disk.
#[verifier::external_body]
pub(crate) fn path_exists(path: &PathBuf) -> bool {
    path.exists()
}

/// `Path::is_file` of std: whether a regular file is at `path` on disk.
#[verifier::external_body]
pub(crate) fn path_is_file(path: &PathBuf) -> bool {
    path.is_file()
}

/// `rusqlite::Connection::open`: opens (creating it if needed) the database file.
#[verifier::external_body]
pub(crate) fn open_connection(path: &PathBuf) -> Result<rusqlite::Connection, rusqlite::Error> {
    rusqlite::Connection::open(path)
}

/// `rusqlite::Connection::open_in_memory`: a fresh database held in memory.
#[verifier::external_body]
pub(crate) fn open_connection_in_memory() -> Result<rusqlite::Connection, rusqlite::Error> {
    rusqlite::Connection::open_in_memory()
}

/// `rusqlite::Connection::execute_batch`: runs every statement of `sql`.
#[verifier::external_body]
pub(crate) fn execute_batch(db: &rusqlite::Connection, sql: &str) -> Result<(), rusqlite::Error> {
    db.execute_batch(sql)
}

/// `rusqlite::Connection::execute`: runs one statement with `params` bound to
/// `?1`, `?2`, ... in order, and returns the number of rows changed.
#[verifier::external_body]
pub(crate) fn execute(db: &rusqlite::Connection, sql: &str, params: &[SqlParam]) -> Result<
    usize,
    rusqlite::Error,
> {
    db.execute(sql, rusqlite::params_from_iter(params.iter().map(to_sql_value)))
}

/// `rusqlite::Connection::prepare_cached` followed by `Statement::execute`: the
/// same as [`execute`], through the connection's statement cache.
#[verifier::external_body]
pub(crate) fn execute_cached(db: &rusqlite::Connection, sql: &str, params: &[SqlParam]) -> Result<
    usize,
    rusqlite::Error,
> {
    db.prepare_cached(sql)?.execute(rusqlite::params_from_iter(params.iter().map(to_sql_value)))
}

/// `rusqlite::Connection::prepare_cached`: prepares `sql` into the statement cache.
#[verifier::external_body]
pub(crate) fn prepare_cached(db: &rusqlite::Connection, sql: &str) -> Result<(), rusqlite::Error> {
    db.prepare_cached(sql).map(|_statement| ())
}

/// `rusqlite::Connection::flush_prepared_statement_cache`: empties the statement cache.
#[verifier::external_body]
pub(crate) fn flush_prepared_statement_cache(db: &rusqlite::Connection) {
    db.flush_prepared_statement_cache()
}

/// `rusqlite::Connection::query_row` reading column 0 of the first row as an integer.
#[verifier::external_body]
pub(crate) fn query_row_integer(db: &rusqlite::Connection, sql: &str, params: &[SqlParam]) -> Result<
    i64,
    rusqlite::Error,
> {
    db.query_row(sql, rusqlite::params_from_iter(params.iter().map(to_sql_value)), |row| row.get(0))
}

/// `rusqlite::Connection::prepare_cached` followed by `Statement::query_row`: the
/// same as [`query_row_integer`], through the statement cache.
#[verifier::external_body]
pub(crate) fn query_row_integer_cached(
    db: &rusqlite::Connection,
    sql: &str,
    params: &[SqlParam],
) -> Result<i64, rusqlite::Error> {
    db.prepare_cached(sql)?.query_row(
        rusqlite::params_from_iter(params.iter().map(to_sql_value)),
        |row| row.get(0),
    )
}

/// `rusqlite::Connection::query_row` reading column 0 of the first row as text.
#[verifier::external_body]
pub(crate) fn query_row_text(db: &rusqlite::Connection, sql: &str, params: &[SqlParam]) -> Result<
    String,
    rusqlite::Error,
> {
    db.query_row(sql, rusqlite::params_from_iter(params.iter().map(to_sql_value)), |row| row.get(0))
}

/// `rusqlite::Connection::query_row` reading column 0 of the first row as a blob.
#[verifier::external_body]
pub(crate) fn query_row_blob(db: &rusqlite::Connection, sql: &str, params: &[SqlParam]) -> Result<
    Vec<u8>,
    rusqlite::Error,
> {
    db.query_row(sql, rusqlite::params_from_iter(params.iter().map(to_sql_value)), |row| row.get(0))
}

/// `rusqlite::Connection::query_row` with `OptionalExtension::optional`: column 0
/// of the first row as text, `None` when there is no row.
#[verifier::external_body]
pub(crate) fn query_row_optional_text(
    db: &rusqlite::Connection,
    sql: &str,
    params: &[SqlParam],
) -> Result<Option<String>, rusqlite::Error> {
    db.query_row(sql, rusqlite::params_from_iter(params.iter().map(to_sql_value)), |row| row.get(0))
        .optional()
}

/// `rusqlite::Connection::query_row` with `OptionalExtension::optional`: columns
/// 0 and 1 as nullable integers and column 2 as a blob, `None` when there is no row.
#[verifier::external_body]
pub(crate) fn query_row_optional_page(
    db: &rusqlite::Connection,
    sql: &str,
    params: &[SqlParam],
) -> Result<Option<(Option<i64>, Option<i64>, Vec<u8>)>, rusqlite::Error> {
    db.query_row(
        sql,
        rusqlite::params_from_iter(params.iter().map(to_sql_value)),
        |row| Ok((row.get(0)?, row.get(1)?, row.get(2)?)),
    ).optional()
}

/// `rusqlite::Connection::prepare` and `Statement::query_map`: column 0 of every
/// row as text, each row's read kept as its own `Result`.
#[verifier::external_body]
pub(crate) fn query_column_texts(db: &rusqlite::Connection, sql: &str, params: &[SqlParam]) -> Result<
    Vec<Result<String, rusqlite::Error>>,
    rusqlite::Error,
> {
    let mut statement = db.prepare(sql)?;
    let rows = statement.query_map(
        rusqlite::params_from_iter(params.iter().map(to_sql_value)),
        |row| row.get(0),
    )?;
    Ok(rows.collect())
}

/// `rusqlite::Connection::transaction`: begins a transaction on `db`.
#[verifier::external_body]
pub(crate) fn begin_transaction<'conn>(db: &'conn mut rusqlite::Connection) -> Result<
    rusqlite::Transaction<'conn>,
    rusqlite::Error,
> {
    db.transaction()
}

/// `Deref` of `rusqlite::Transaction`: the connection the transaction runs on.
#[verifier::external_body]
pub(crate) fn transaction_connection<'a, 'conn>(txn: &'a rusqlite::Transaction<'conn>) -> &'a rusqlite::Connection {
    std::ops::Deref::deref(txn)
}

/// `rusqlite::Transaction::commit`: commits and ends the transaction.
#[verifier::external_body]
pub(crate) fn commit(txn: rusqlite::Transaction<'_>) -> Result<(), rusqlite::Error> {
    txn.commit()
}

/// `slice::sort` of std on header pairs: the same pairs, in ascending order.
#[verifier::external_body]
pub(crate) fn sort_headers(headers: &mut Vec<(String, String)>)
    ensures
        final(headers).deep_view().to_multiset() == old(headers).deep_view().to_multiset(),
        forall|i: int, j: int|
            0 <= i < j < final(headers).deep_view().len() ==> header_le(
                #[trigger] final(headers).deep_view()[i],
                #[trigger] final(headers).deep_view()[j],
            ),
{
    headers.sort()
}

/// `Vec::into_boxed_slice` of std: the same elements, as a boxed slice.
#[verifier::external_body]
pub(crate) fn into_boxed_slice<T>(v: Vec<T>) -> (b: Box<[T]>)
    ensures
        b@ == v@,
{
    v.into_boxed_slice()
}

/// The JSON text that `serde_json::to_string` writes for a list of header pairs.
pub uninterp spec fn json_of_headers(headers: Seq<(Seq<char>, Seq<char>)>) -> Seq<char>;

/// The header pairs that `serde_json::from_str` reads from `json`, if it can.
pub uninterp spec fn headers_of_json(json: Seq<char>) -> Option<Seq<(Seq<char>, Seq<char>)>>;

/// What `zstd` decodes from `compressed` with `dictionary`, if it can.
pub uninterp spec fn zstd_decoded(compressed: Seq<u8>, dictionary: Seq<u8>) -> Option<Seq<u8>>;

/// `serde_json::to_string` of a list of header pairs. Its documentation says it
/// fails only where a `Serialize` impl fails or a map has non-string keys, which
/// cannot happen for `Vec<(String, String)>`. It writes the list as a JSON
/// array of two-string arrays, each string with its quotes, backslashes and
/// control characters escaped, so `serde_json::from_str` reads the same pairs
/// back from it.
#[verifier::external_body]
pub(crate) fn headers_to_json(headers: &Vec<(String, String)>) -> (res: Result<String, serde_json::Error>)
    ensures
        res is Ok,
        res matches Ok(json) ==> json@ == json_of_headers(headers.deep_view()),
        res matches Ok(json) ==> headers_of_json(json@) == Some(headers.deep_view()),
{
    serde_json::to_string(headers)
}

/// `serde_json::from_str` into a list of header pairs.
#[verifier::external_body]
pub(crate) fn headers_from_json(json: &str) -> (res: Result<Vec<(String, String)>, serde_json::Error>)
    ensures
        res is Ok <==> headers_of_json(json@) is Some,
        res matches Ok(headers) ==> headers.deep_view() == headers_of_json(json@).unwrap(),
{
    serde_json::from_str(json)
}

/// `zstd::Decoder::with_dictionary` read to the end with `Read::read_to_end`:
/// decompresses `compressed` with `dictionary`.
#[verifier::external_body]
pub(crate) fn zstd_decode_with_dictionary(compressed: &[u8], dictionary: &[u8]) -> (res: Result<
    Vec<u8>,
    std::io::Error,
>)
    ensures
        res is Ok <==> zstd_decoded(compressed@, dictionary@) is Some,
        res matches Ok(bytes) ==> bytes@ == zstd_decoded(compressed@, dictionary@).unwrap(),
{
    let mut decoder = zstd::Decoder::with_dictionary(compressed, dictionary)?;
    let mut decoded = Vec::new();
    decoder.read_to_end(&mut decoded)?;
    Ok(decoded)
}

/// What `zstd` compresses `data` to at `level` with `dictionary`, if it can.
pub uninterp spec fn zstd_compressed(level: int, data: Seq<u8>, dictionary: Seq<u8>) -> Option<Seq<u8>>;

/// `zstd::bulk::Compressor::with_dictionary` then `Compressor::compress`:
/// compresses `data` at `level` with `dictionary`. What it returns decodes with
/// the same dictionary to `data` again (zstd is lossless, and its documentation
/// asks for the same dictionary at decompression).
#[verifier::external_body]
pub(crate) fn zstd_compress_with_dictionary(level: i32, data: &[u8], dictionary: &[u8]) -> (res: Result<
    Vec<u8>,
    std::io::Error,
>)
    ensures
        res is Ok <==> zstd_compressed(level as int, data@, dictionary@) is Some,
        res matches Ok(compressed) ==> compressed@ == zstd_compressed(level as int, data@, dictionary@).unwrap(),
        res matches Ok(compressed) ==> zstd_decoded(compressed@, dictionary@) == Some(data@),
{
    zstd::bulk::Compressor::with_dictionary(level, dictionary)?.compress(data)
}

/// The value of an ASCII hexadecimal digit, if `b` is one.
pub open spec fn hex_digit_value(b: u8) -> Option<u8> {
    if 48 <= b <= 57 {
        Some((b - 48) as u8)
    } else if 65 <= b <= 70 {
        Some((b - 55) as u8)
    } else if 97 <= b <= 102 {
        Some((b - 87) as u8)
    } else {
        None
    }
}

/// Percent-decoding of bytes: each `%` followed by two hexadecimal digits
/// becomes the byte they spell; every other byte (a `+` too) stays as it is.
pub open spec fn percent_decoded(bytes: Seq<u8>) -> Seq<u8>
    decreases bytes.len(),
{
    if bytes.len() == 0 {
        bytes
    } else if bytes[0] == 37 && bytes.len() >= 3 && hex_digit_value(bytes[1]) is Some
        && hex_digit_value(bytes[2]) is Some {
        seq![
            (hex_digit_value(bytes[1]).unwrap() * 16 + hex_digit_value(bytes[2]).unwrap()) as u8,
        ] + percent_decoded(bytes.skip(3))
    } else {
        seq![bytes[0]] + percent_decoded(bytes.drop_first())
    }
}

/// `urlencoding::decode`: percent-decodes the UTF-8 bytes of `data`, and reads
/// the result as UTF-8.
#[verifier::external_body]
pub(crate) fn percent_decode(data: &str) -> (res: Result<String, std::string::FromUtf8Error>)
    ensures
        res is Ok <==> vstd::utf8::valid_utf8(percent_decoded(vstd::utf8::encode_utf8(data@))),
        res matches Ok(decoded) ==> decoded@ == vstd::utf8::decode_utf8(
            percent_decoded(vstd::utf8::encode_utf8(data@)),
        ),
{
    urlencoding::decode(data).map(|decoded| decoded.into_owned())
}

/// `rusqlite::types::Value::from(rusqlite::types::Null)`: the `Null` value.
#[verifier::external_body]
fn null_value() -> rusqlite::types::Value {
    rusqlite::types::Value::from(rusqlite::types::Null)
}

/// `rusqlite::types::Value::from` of an `i64`: the `Integer` value holding `i`.
#[verifier::external_body]
fn integer_value(i: i64) -> rusqlite::types::Value {
    rusqlite::types::Value::from(i)
}

/// `rusqlite::types::Value::from` of a `String`: the `Text` value holding `s`.
#[verifier::external_body]
fn text_value(s: String) -> rusqlite::types::Value {
    rusqlite::types::Value::from(s)
}

/// `rusqlite::types::Value::from` of a `Vec<u8>`: the `Blob` value holding `b`.
#[verifier::external_body]
fn blob_value(b: Vec<u8>) -> rusqlite::types::Value {
    rusqlite::types::Value::from(b)
}

/// The `rusqlite::types::Value` that the wrappers above bind for `param`: the
/// one of the same variant, holding the same integer, text or bytes.
fn to_sql_value(param: &SqlParam) -> rusqlite::types::Value {
    match param {
        SqlParam::Null => null_value(),
        SqlParam::Integer(i) => integer_value(*i),
        SqlParam::Text(s) => text_value(s.clone()),
        SqlParam::Blob(b) => blob_value(b.clone()),
    }
}

} // verus!
