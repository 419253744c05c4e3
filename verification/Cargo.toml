[package]
name = "rpc_interceptor"
version = "0.1.0"
edition = "2021"
publish = false

[dependencies]
futures = "0.3"
hyper = "0.14"
tonic = "0.8"
tower = "0.4"
tracing = "0.1"
