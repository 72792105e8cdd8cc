[package]
name = "sps"
version = "0.1.0"
edition = "2021"
publish = false

[dependencies]
duckdb = { version = "*", default-features = false, features = ["r2d2"] }
memmap2 = "*"
r2d2 = "*"
serde = { version = "1", features = ["derive"] }
serde_json = "1"
serde_with = "*"
thiserror = "*"
time = { version = "0.3", features = ["parsing", "macros", "formatting"] }
tracing = "*"
