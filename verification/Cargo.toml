[package]
name = "route_proxy"
version = "0.1.0"
edition = "2021"
publish = false

[dependencies]
regex = "1"
hyper = { version = "0.14", features = ["full"] }
tokio = { version = "1", features = ["full"] }
libloading = "0.8"
log = "0.4"
flexi_logger = "0.22"
config = "0.11"
serde = { version = "1", features = ["derive"] }
lazy_static = "1.4"
