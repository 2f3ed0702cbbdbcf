[package]
name = "protify_server"
version = "0.1.0"
edition = "2021"
publish = false

[dependencies]
serde_json = "=1.0.154"
hyper = { version = "=1.12.0", features = ["server", "http1"] }
hyper-util = { version = "=0.1.21", features = ["tokio"] }
http-body-util = "=0.1.5"
tokio = { version = "=1.54.1", features = ["rt-multi-thread", "macros", "net"] }
mysql = { version = "=28.0.4", default-features = false, features = ["minimal-rust"] }
websocket = { version = "=0.27.1", default-features = false, features = ["sync"] }
colored = "=2.2.0"
