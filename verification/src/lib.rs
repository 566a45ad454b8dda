//! Store websites in a compressed single file database.
//!
//! The URL canonicalisation rules live in [`url`]; the page store that keeps
//! pages in an SQLite file lives in [`site`].

pub mod db;
pub mod error;
pub mod headers;
pub mod import;
pub mod request;
pub mod response;
pub mod site;
pub mod statements;
pub mod text;
pub mod url;

pub use error::SiteError;
pub use response::PageResponse;
pub use site::{BulkSqliteSiteAdder, SqliteSite};
pub use url::{c14n_url, c14n_url_w_slash};
