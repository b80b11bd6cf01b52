[package]
name = "browser_history"
version = "0.1.0"
edition = "2021"
publish = false

[dependencies]
chrono = { version = "0.4", default-features = false, features = ["std"] }
log = "0.4"
rust-ini = "*"
rusqlite = "*"
uuid = { version = "1", features = ["v4"] }
