[package]
name = "account_directory"
version = "0.1.0"
edition = "2021"
publish = false

[dependencies]
anyhow = "*"
async-nats = "*"
chrono = "*"
futures = "*"
protobuf = "*"
sqlx = { version = "*", default-features = false, features = ["runtime-tokio", "postgres", "chrono"] }
tokio = { version = "*", features = ["rt-multi-thread", "macros"] }
