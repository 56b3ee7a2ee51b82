[package]
name = "opener_lib"
version = "0.1.0"
edition = "2021"
publish = false

[dependencies]
url = "*"
log = "*"
once_cell = "*"
parking_lot = "*"
reqwest = { version = "*", default-features = false }
tokio = { version = "*", features = ["time", "rt", "rt-multi-thread", "macros"] }
