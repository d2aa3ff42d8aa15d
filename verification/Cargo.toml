[package]
name = "thread_context_pins"
version = "0.1.0"
edition = "2021"
publish = false

[dependencies]
anyhow = "1"
chrono = { version = "0.4", default-features = false, features = ["clock", "std"] }
uuid = { version = "1", features = ["v4"] }
sqlx = { version = "0.8", default-features = false, features = ["sqlite", "runtime-tokio"] }
