[package]
name = "awesome_rpc"
version = "0.1.0"
edition = "2021"
publish = false

[dependencies]
portpicker = "0.1"
serde = { version = "1", features = ["derive"] }
serde_json = "1"
jsonrpc-ws-server = "18"

[dev-dependencies]
