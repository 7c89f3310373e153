[package]
name = "attendance"
version = "0.1.0"
edition = "2021"
publish = false

[dependencies]
anyhow = "=1.0.104"
chrono = { version = "=0.4.45", features = ["serde"] }
data-encoding = "=2.11.1"
jsonwebtoken = "=9.3.1"
ring = "=0.17.14"
serde = { version = "=1.0.229", features = ["derive"] }
thiserror = "=1.0.69"
tokio = { version = "=1.54.1", features = ["macros", "rt-multi-thread"] }
tokio-postgres = { version = "=0.7.18", features = ["with-uuid-1", "with-chrono-0_4"] }
tracing = "=0.1.44"
tracing-subscriber = "=0.3.23"
uuid = { version = "=1.29.1", features = ["v4", "serde"] }
warp = "=0.3.7"
