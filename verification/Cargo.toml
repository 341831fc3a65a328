[package]
name = "relayer_order_api"
version = "0.1.0"
edition = "2021"
publish = false

[dependencies]
bincode = "1.3.3"
hex = "0.4.3"
serde = { version = "1", features = ["derive"] }
serde_derive = "1"
serde_json = "1"
jsonrpc-core = "18.0.0"
jsonrpc-http-server = "18.0.0"
kafka = { version = "0.10.0", default-features = false }
dotenv = "0.15.0"
lazy_static = "1"
datasize = "0.2.15"
