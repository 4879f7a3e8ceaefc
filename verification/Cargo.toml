[package]
name = "serial_session"
version = "0.1.0"
edition = "2021"
publish = false

[dependencies]
uuid = { version = "=1.29.0", features = ["v4"] }
rmodbus = "=0.12.2"
tokio = { version = "=1.54.1", features = ["sync", "rt", "macros", "time", "io-util"] }
tokio-serial = { version = "=5.5.0", default-features = false }
serde = { version = "=1.0.229", features = ["derive"] }
serde_json = "=1.0.154"
tracing = "=0.1.44"
sea-orm = { version = "1", default-features = false, features = ["sqlx-sqlite", "runtime-tokio-rustls", "macros"] }
