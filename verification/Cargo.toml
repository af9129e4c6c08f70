[package]
name = "simple_rpc"
version = "0.1.0"
edition = "2021"
publish = false

[dependencies]
bytes = "*"
futures = "*"
prost = "*"
