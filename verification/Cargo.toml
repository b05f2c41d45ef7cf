[package]
name = "method_export"
version = "0.1.0"
edition = "2021"
publish = false

[dependencies]
proc-macro2 = "1"
quote = "1"
syn = { version = "1", features = ["full"] }
once_cell = "1"
parking_lot = "*"
