[package]
name = "ambient_core"
version = "0.1.0"
edition = "2021"
publish = false

[dependencies]
rand = "*"
urlencoding = "*"
chrono = "*"
serde = { version = "*", features = ["derive"] }
reqwest = { version = "*", default-features = false, features = ["json"] }
