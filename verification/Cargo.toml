[package]
name = "tcp_provider"
version = "0.1.0"
edition = "2021"
publish = false

[dependencies]
async-io = "=2.6.0"
futures = "=0.3.34"
if-watch = { version = "=3.2.2", features = ["smol"] }
log = "=0.4.34"
