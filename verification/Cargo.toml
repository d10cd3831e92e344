[package]
name = "speech_relay"
version = "0.1.0"
edition = "2021"
publish = false

[dependencies]
envy = "0.4"
once_cell = "1"
reqwest = { version = "0.11", default-features = false, features = ["rustls-tls"] }
serde = { version = "1", features = ["derive"] }
serenity = { version = "0.11", default-features = false, features = ["builder", "cache", "client", "gateway", "http", "model", "utils", "rustls_backend", "voice"] }
songbird = { version = "0.3", features = ["builtin-queue"] }
tap = "1"
tokio = { version = "1", features = ["macros", "rt-multi-thread", "signal"] }
tracing-subscriber = "0.3"
