[package]
name = "rpc_guard"
version = "0.1.0"
edition = "2021"
publish = false

[dependencies]
jsonrpc-core = "18"
jsonrpc-derive = "18"
jsonrpc-http-server = "18"
hyper = "0.14"
tokio = { version = "1", features = ["rt-multi-thread"] }
futures-util = "0.3"
