[package]
name = "file_sharer"
version = "0.1.0"
edition = "2021"
publish = false

[dependencies]
anyhow = "1"
askama = "0.11"
axum = { version = "0.5", features = ["headers", "multipart"] }
axum-extra = { version = "0.3", features = ["typed-routing"] }
clap = { version = "3", features = ["derive"] }
futures-util = "0.3"
mime_guess = "2"
rand = "0.8"
serde = { version = "1", features = ["derive"] }
time = { version = "0.3", features = ["formatting", "local-offset", "parsing"] }
tokio = { version = "1", features = ["fs", "io-util", "macros", "rt", "signal", "sync"] }
toml = "0.5"
tracing = "0.1"
tracing-subscriber = "0.3"
