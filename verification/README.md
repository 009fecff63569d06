# subsonic_nexus

An OpenSubsonic server that merges the libraries of several upstream
Subsonic/OpenSubsonic servers into one.  Entities of different servers that
evaluate to the same aggregation key (from per-server templates in
`nexus.toml`) are shown once, taken from the server with the best priority
(ties go to the server with the lowest id).

## Layout

- `src/` — the library, verified with Verus:
  - `template.rs` — the aggregation-key template language (parse, transforms,
    evaluation) and its laws;
  - `decompose.rs` — the canonical (NFD) decomposition table behind the
    `ascii_normalize` transform: the ASCII character that begins the
    decomposition of each character that has one;
  - `auth.rs`, `token.rs` — Subsonic authentication (API key, token + salt,
    plain and `enc:` passwords);
  - `nexus.rs`, `queries.rs`, `sql.rs` — nexus entity IDs, cover-art IDs, the
    upstream URL builder, index letters and grouping, and the SQL text of the
    canonical-entity queries;
  - `proxy.rs` — the write target and the parameters forwarded upstream;
  - `scanner.rs` — the scan: aggregation keys, rescan detection, and the walk
    over an upstream library as a state machine (`scan_start`, `scan_next`)
    that `app/` drives, performing the upstream calls and database writes it
    asks for;
  - `handlers/` — endpoint parameters and each endpoint's decisions;
  - `config.rs`, `error.rs`, `extract.rs`, `text.rs`.
- `app/` — the HTTP server around the library: axum routing and extractors,
  the SQLite database, upstream HTTP calls, and `nexus.toml` loading.
- `tests/` — tests of the library on concrete values.

## Dependencies

`md5` is called by the library (Subsonic tokens are MD5 digests).  The other
crates serve `app/`: `axum` and `tokio` for the HTTP server, `reqwest` for the
upstream calls, `serde`, `serde_json`, `serde_urlencoded` and `toml` for the
wire formats and the configuration file, `opensubsonic` for the response
types, `tracing` for logging, and `diesel`, `diesel-async` and
`diesel_migrations` for the SQLite database.  `libsqlite3-sys` is named only to
switch on its `bundled` feature: diesel's SQLite backend links against it, and
with that feature the SQLite library is compiled into the binary, so the
server needs no SQLite installed on the machine it runs on.
