[package]
name = "batch_logger"
version = "0.1.0"
edition = "2021"
publish = false

[dependencies]
log = "=0.4.34"
rusqlite = { version = "=0.41.0", features = ["fallible_uint"] }
smol_str = "=0.3.7"
