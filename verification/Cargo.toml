[package]
name = "futures_sync_bench"
version = "0.1.0"
edition = "2021"
publish = false

[dependencies]
crossbeam-channel = "*"

[dev-dependencies]
crossbeam-utils = "*"
