[package]
name = "dynamic_types"
version = "0.1.0"
edition = "2021"
publish = false

[dependencies]
ahash = "*"
parking_lot = "*"
smartstring = "*"
thiserror = "*"
