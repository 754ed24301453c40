[package]
name = "quik_bot"
version = "0.1.0"
edition = "2021"
publish = false

[dependencies]
chrono = "*"
libc = "*"
libloading = "*"
tokio = { version = "*", features = ["rt-multi-thread", "macros", "sync", "time", "signal"] }
tracing = "*"
tracing-subscriber = "*"
serde = { version = "*", features = ["derive"] }
serde_yaml = "*"
bb8 = "*"
bb8-postgres = "*"
tokio-postgres = { version = "*", features = ["with-chrono-0_4"] }
postgres-types = { version = "*", features = ["derive"] }
rust_decimal = { version = "*", features = ["db-tokio-postgres"] }
