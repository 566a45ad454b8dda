# libsqlitesite

Store a static website in a single SQLite file, and serve it.

- `src/url.rs`: URL canonicalisation (runs of slashes collapsed, a leading
  slash, an optional trailing slash), with its laws proved.
- `src/site.rs`: the page store (`SqliteSite`, `BulkSqliteSiteAdder`) on top of
  `rusqlite`, each keeping a ghost record of the statements it hands the
  database to store pages and (for the site) metadata values;
  `src/response.rs` holds the answer for a URL.
- `src/statements.rs`: the text of every SQL statement, and verified builders
  that give the parameters bound to each exactly.
- `src/headers.rs`: the order-independent JSON text that identifies stored HTTP
  headers.
- `src/import.rs`: how the files of a directory become pages.
- `src/request.rs`: the page path that a CGI request asks for.
- `src/db.rs`: the calls into `rusqlite`, `serde_json`, `zstd`, `urlencoding`
  and std, each with the contract it is trusted to meet.
- `app/`: the command line tool, the CGI programme and the development web
  server (one binary; installed as `sqlitesite-cgi` or `sqlitesite-web` it runs
  as those).
