[package]
name = "deno_http"
version = "0.1.0"
edition = "2021"
publish = false

[dependencies]
base64 = "0.13"
bytes = "1"
deno_core = ">=0.93, <0.97"
deno_websocket = ">=0.16, <0.20"
hyper = { version = "0.14", features = ["server", "stream", "http1", "http2", "runtime"] }
ring = "0.16"
serde = { version = "1", features = ["derive"] }
tokio = { version = "1", features = ["full"] }
tokio-util = { version = "0.6", features = ["io"] }
