[package]
name = "bytey"
version = "0.4.0"
edition = "2021"
publish = false

[dependencies]
bincode = "2"
proc-macro2 = "1"
quote = "1"
syn = { version = "1", features = ["full"] }
thiserror = "1"
