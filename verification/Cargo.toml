[package]
name = "container_gateway"
version = "0.1.0"
edition = "2021"
publish = false

[dependencies]
axum = "0.7"
bollard = "*"
bytes = "1"
http-body-util = "0.1"
hyper = { version = "1", features = ["client", "http1"] }
hyper-util = { version = "0.1", features = ["tokio"] }
mongodb = "2"
reqwest = { version = "0.12", default-features = false, features = ["rustls-tls"] }
tokio = { version = "1", features = ["full"] }
