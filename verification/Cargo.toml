[package]
name = "tunnel_forward"
version = "0.1.0"
edition = "2021"
publish = false

[dependencies]
async-rustls = "0.3"
async-trait = "0.1"
futures = "0.3"
hyper = { version = "0.14", features = ["http1", "server"] }
once_cell = "1"
rustls-native-certs = "0.6"
tokio = { version = "1", features = ["io-util", "net", "rt", "time"] }
tokio-util = { version = "0.7", features = ["compat"] }
tracing = "0.1"
url = "2"
windows-sys = { version = "0.45", features = ["Win32_Foundation"] }
