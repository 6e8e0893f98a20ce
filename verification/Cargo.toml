[package]
name = "helloworld"
version = "0.1.0"
edition = "2021"
publish = false

[dependencies]
sqlx = { version = "*", features = ["runtime-tokio", "postgres"] }
tokio = { version = "*", features = ["macros", "rt-multi-thread"] }
tonic = "*"
tracing = "*"
tracing-subscriber = "*"
