//! The errors of the page store.
use vstd::prelude::*;

verus! {

/// The SQLite connection type of `rusqlite`.
#[verifier::external_type_specification]
#[verifier::external_body]
pub struct ExConnection(rusqlite::Connection);

/// A transaction open on a `rusqlite` connection.
#[verifier::external_type_specification]
#[verifier::external_body]
pub struct ExTransaction<'conn>(rusqlite::Transaction<'conn>);

/// A value that `rusqlite` binds to an SQL parameter.
#[verifier::external_type_specification]
#[verifier::external_body]
pub struct ExSqlValue(rusqlite::types::Value);

/// The error type of `rusqlite`.
#[verifier::external_type_specification]
#[verifier::external_body]
pub struct ExSqliteError(rusqlite::Error);

/// The error type of `serde_json`.
#[verifier::external_type_specification]
#[verifier::external_body]
pub struct ExJsonError(serde_json::Error);

/// The I/O error type of std, which `zstd` returns.
#[verifier::external_type_specification]
#[verifier::external_body]
pub struct ExIoError(std::io::Error);

/// The error of std for bytes that are not UTF-8.
#[verifier::external_type_specification]
#[verifier::external_body]
pub struct ExFromUtf8Error(std::string::FromUtf8Error);

/// An owned filesystem path of std.
#[verifier::external_type_specification]
#[verifier::external_body]
pub struct ExPathBuf(std::path::PathBuf);

/// Why an operation on a site failed.
#[derive(Debug)]
pub enum SiteError {
    /// The database reported an error.
    Sqlite(rusqlite::Error),
    /// Stored HTTP headers could not be read or written as JSON.
    Json(serde_json::Error),
    /// Stored contents could not be decompressed.
    Io(std::io::Error),
    /// `create` was asked for a path that already exists.
    PathAlreadyExists,
    /// `open` was asked for a path that does not exist.
    PathDoesNotExist,
    /// `open` was asked for a path that is not a file.
    PathIsNotAFile,
    /// A URL to store does not start with `/`.
    UrlNotAbsolute,
    /// A page to add has empty contents.
    EmptyContents,
    /// An integer read from the database does not fit the expected type.
    IntegerOutOfRange(i64),
    /// Sending special 404 contents is enabled, but no such contents are stored.
    Missing404Content,
    /// Special 404 sending was asked for before any 404 contents were stored.
    No404ContentToEnable,
}

} // verus!
