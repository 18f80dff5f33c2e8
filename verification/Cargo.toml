[package]
name = "aether_delegate"
version = "0.1.0"
edition = "2021"
publish = false

[dependencies]
base64 = "*"
serde_json = "*"
url = "*"
hyper = { version = "*", features = ["client", "http1", "http2"] }
http-body-util = "*"
hyper-util = { version = "*", features = ["client", "client-legacy", "http1", "http2", "tokio"] }
bytes = "*"
futures-util = "*"
tokio = { version = "*", features = ["net", "rt", "time"] }
tokio-rustls = { version = "*", default-features = false, features = ["ring", "logging", "tls12"] }
rustls = { version = "*", default-features = false, features = ["ring", "logging", "std", "tls12"] }
rustls-pki-types = "*"
webpki-roots = "*"
tower-service = "*"
