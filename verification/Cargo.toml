[package]
name = "fork_backend"
version = "0.1.0"
edition = "2021"
publish = false

[dependencies]
rust-argon2 = "*"
cookie = "*"
time = "*"
serde = { version = "1", features = ["derive"] }
serde_json = "1"
axum = "*"
tokio = { version = "1", features = ["full"] }
async-session = "*"
async-redis-session = "*"
diesel = { version = "*", features = ["postgres", "r2d2"] }
dotenv = "*"
tracing = "*"
tracing-subscriber = "*"
