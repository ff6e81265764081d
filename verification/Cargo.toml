[package]
name = "via"
version = "0.1.0"
edition = "2021"
publish = false

[dependencies]
base64 = "0.22"
bytes = "1"
bytestring = "1"
cookie = { version = "0.18", features = ["percent-encode"] }
futures = "0.3"
futures-core = "0.3"
futures-util = { version = "0.3", features = ["sink"] }
http = "1"
http-body = "1"
http-body-util = "0.1"
hyper = { version = "1", features = ["server", "http1"] }
hyper-util = { version = "0.1", features = ["tokio"] }
ring = "0.17"
serde = { version = "1", features = ["derive"] }
serde_json = "1"
smallvec = "1"
tokio = { version = "1", features = ["rt", "time", "sync", "macros", "io-util"] }
tokio-websockets = { version = "*", features = ["server", "sha1_smol"] }
