[package]
name = "udp_endpoint"
version = "0.1.0"
edition = "2021"
publish = false

[dependencies]
bimap = "*"
async-io = "*"
async-std = "*"
futures = "*"
thiserror = "*"
tracing = "*"
