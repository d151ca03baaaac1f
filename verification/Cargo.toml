[package]
name = "commander"
version = "0.1.0"
edition = "2021"
publish = false

[dependencies]
axum = "*"
bollard = "*"
futures-util = "*"
tokio = { version = "*", features = ["full"] }
tower-http = { version = "*", features = ["fs"] }
