[package]
name = "pluginx"
version = "0.1.0"
edition = "2021"
publish = false

[dependencies]
foldhash = "*"
futures-util = "*"
http = "*"
hyper-util = { version = "*", features = ["tokio"] }
prost = "*"
tempfile = "*"
thiserror = "*"
tokio = { version = "1", features = ["full"] }
tokio-stream = { version = "*", features = ["net"] }
tonic = "*"
tonic-health = "*"
tonic-prost = "*"
tower = "*"
tower-service = "*"
