[package]
name = "html"
version = "0.1.0"
edition = "2021"
publish = false

[dependencies]
axum = "*"
indoc = "*"
lazy_static = "*"
reqwest = { version = "*", default-features = false, features = ["blocking"] }
tokio = { version = "*", features = ["rt-multi-thread", "net", "macros"] }
