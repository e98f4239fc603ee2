[package]
name = "macocr"
version = "0.1.0"
edition = "2021"
publish = false

[dependencies]
axum = { version = "*", features = ["multipart"] }
base64 = "*"
clap = { version = "*", features = ["derive"] }
image = "*"
infer = "*"
serde = { version = "*", features = ["derive"] }
tokio = { version = "*", features = ["macros", "rt-multi-thread", "net"] }
tower-http = { version = "*", features = ["limit"] }
uuid = { version = "*", features = ["v4"] }
