[package]
name = "authflow"
version = "0.1.0"
edition = "2021"
publish = false

[dependencies]
urlencoding = "*"
serde_json = "*"
base64 = "*"
rand = "*"
serde = { version = "*", features = ["derive"] }
tokio = { version = "*", features = ["sync", "rt-multi-thread", "macros", "time", "net"] }
axum = "*"
reqwest = { version = "*", default-features = false, features = ["json"] }
