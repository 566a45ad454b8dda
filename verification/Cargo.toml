[package]
name = "libsqlitesite"
version = "0.1.0"
edition = "2021"
publish = false

[dependencies]
rusqlite = { version = "*", features = ["bundled"] }
serde_json = "*"
zstd = "*"
anyhow = "*"
clap = { version = "*", features = ["derive"] }
cgi = "*"
rouille = "*"
urlencoding = "*"
walkdir = "*"
indicatif = "*"
