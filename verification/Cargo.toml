[package]
name = "import_endpoint"
version = "0.1.0"
edition = "2021"
publish = false

[dependencies]
axum = "*"
bytes = "*"
tokio = { version = "*", features = ["rt-multi-thread", "macros", "net"] }
tower-http = { version = "*", features = ["limit"] }
