[package]
name = "fyc"
version = "0.1.0"
edition = "2021"
publish = false

[dependencies]
uuid = { version = "1", features = ["v4"] }
serde = { version = "1", features = ["derive"] }
serde_json = "1"
hyper = { version = "1", features = ["server", "http1", "http2"] }
hyper-util = { version = "0.1", features = ["server-auto", "tokio"] }
tokio = { version = "1", features = ["rt-multi-thread", "net", "macros"] }
flate2 = "1"
tar = "0.4"
libc = "0.2"
lazy_static = "1"
