[package]
name = "dv4lua"
version = "0.1.0"
edition = "2021"
publish = false

[dependencies]
clap = "4"
directories = "6"
futures = "0.3"
humantime-serde = "1"
mlua = { version = "0.10", features = ["lua54", "vendored", "async", "serialize"] }
serde = { version = "1", features = ["derive"] }
serde_json = "1"
thiserror = "2"
tokio = { version = "1", features = ["rt", "macros", "sync"] }
tracing = "0.1"
tracing-subscriber = { version = "0.3", features = ["env-filter"] }
