[package]
name = "weaver"
version = "0.1.0"
edition = "2021"
publish = false

[dependencies]
smallvec = "1"
matchit = "0.8"
http = "1"
mime = "0.3"
serde_json = "1"
serde = { version = "1", features = ["derive"] }
bytes = "1"
either = "1"
hyper = { version = "1", features = ["server", "http1", "http2"] }
hyper-util = { version = "0.1", features = ["server-auto"] }
http-body-util = "0.1"
futures-io = "0.3"
pin-project-lite = "0.2"
log = { version = "0.4", features = ["kv"] }
thiserror = "1"
derive_builder = "0.20"
async-trait = "0.1"
paste = "1"
tarantool = "*"
