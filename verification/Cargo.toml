[package]
name = "miniblog"
version = "0.1.0"
edition = "2021"
publish = false

[dependencies]
uuid = { version = "*", features = ["v4"] }
chrono = "*"
axum = { version = "*", features = ["multipart"] }
tokio = { version = "*", features = ["macros", "rt-multi-thread", "signal", "net", "fs"] }
sqlx = { version = "*", default-features = false, features = ["runtime-tokio", "sqlite"] }
reqwest = { version = "*", default-features = false }
tower-http = { version = "*", features = ["fs"] }
minijinja = "*"
minijinja-contrib = { version = "*", features = ["datetime"] }
serde = { version = "*", features = ["derive"] }
log = "*"
env_logger = "*"
