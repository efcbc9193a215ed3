[package]
name = "lancelot"
version = "0.1.0"
edition = "2021"
publish = false

[dependencies]
actix-web = { version = "*", default-features = false, features = ["macros"] }
anyhow = "*"
chrono = "*"
rusqlite = "*"
tokio = { version = "*", features = ["macros", "rt-multi-thread"] }
