[package]
name = "scilla_parser"
version = "1.0.0"
edition = "2021"
publish = false

[dependencies]
lalrpop-util = { version = "0.20", default-features = false }
thiserror = "1"
