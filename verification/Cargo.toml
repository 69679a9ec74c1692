[package]
name = "aleo_gateway"
version = "0.1.0"
edition = "2021"
publish = false

[dependencies]
hex = "0.4"
serde_json = "1"
jsonrpc-http-server = "18"
structopt = "0.3"
