[package]
name = "proxy_core"
version = "0.1.0"
edition = "2021"
publish = false

[dependencies]
futures-util = "*"
http-body-util = "*"
hyper = { version = "*", features = ["http1", "server"] }
hyper-util = { version = "*", features = ["tokio"] }
reqwest = { version = "*", default-features = false, features = ["rustls-tls"] }
rustls = { version = "*", default-features = false, features = ["ring", "logging", "std", "tls12"] }
tokio = { version = "*", features = ["rt-multi-thread", "net", "sync", "time", "macros"] }
tokio-tungstenite = { version = "*", features = ["rustls-tls-webpki-roots"] }
