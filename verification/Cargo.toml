[package]
name = "subsonic_nexus"
version = "0.1.0"
edition = "2021"
publish = false

[dependencies]
md5 = "*"
serde = { version = "1", features = ["derive"] }
serde_json = "1"
serde_urlencoded = "*"
toml = "*"
axum = "*"
tokio = { version = "1", features = ["full"] }
tracing = "*"
tracing-subscriber = { version = "*", features = ["env-filter"] }
reqwest = { version = "*", default-features = false, features = ["json", "stream", "rustls-tls"] }
diesel = { version = "2", features = ["sqlite", "returning_clauses_for_sqlite_3_35"] }
diesel-async = { version = "*", features = ["sqlite", "bb8", "sync-connection-wrapper"] }
diesel_migrations = { version = "2", features = ["sqlite"] }
libsqlite3-sys = { version = "*", features = ["bundled"] }
opensubsonic = "*"
