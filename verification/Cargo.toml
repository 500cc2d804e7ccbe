[package]
name = "conn_bridge"
version = "0.1.0"
edition = "2021"
publish = false

[dependencies]
tokio = { version = "1", features = ["full"] }
hyper = { version = "1", features = ["full"] }
hyper-util = { version = "0.1", features = ["full"] }
http = "1"
tower = "0.5"
futures-util = "0.3"
pin-project = "1"
motore = "*"
