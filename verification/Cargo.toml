[package]
name = "pomodoro_bot"
version = "0.1.0"
edition = "2021"
publish = false

[dependencies]
serenity = { version = "*", default-features = false, features = ["client", "gateway", "model", "rustls_backend"] }
sqlx = { version = "*", default-features = false, features = ["runtime-tokio", "sqlite"] }
tokio = { version = "*", features = ["macros", "rt-multi-thread"] }
