[package]
name = "cdh_client"
version = "0.1.0"
edition = "2021"
publish = false

[dependencies]
anyhow = "1"
slog = "2"
slog-scope = "4"
ttrpc = { version = "0.7", default-features = false, features = ["async"] }
