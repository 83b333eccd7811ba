[package]
name = "linkerd_support"
version = "0.1.0"
edition = "2021"
publish = false

[dependencies]
drain = "=0.2.1"
futures = "=0.3.34"
http = "=1.5.0"
http-body-util = "=0.1.5"
hyper = { version = "=1.12.0", features = ["client", "http1", "http2"] }
hyper-util = { version = "=0.1.21", features = ["client", "client-legacy", "http1", "http2", "tokio"] }
linkerd2-proxy-api = { version = "=0.17.0", features = ["identity"] }
parking_lot = "=0.12.5"
rustls-pemfile = "=2.2.0"
tokio = { version = "=1.54.1", features = ["macros", "net", "rt", "sync", "test-util", "time"] }
tokio-rustls = { version = "=0.26.6", default-features = false, features = ["ring", "tls12"] }
tonic = "=0.13.1"
tower = { version = "=0.5.3", features = ["spawn-ready", "util"] }
tracing = "=0.1.44"

[dev-dependencies]
tower-test = "=0.4.0"
