[package]
name = "cjs_lexer"
version = "0.1.0"
edition = "2021"
publish = false

[dependencies]
anyhow = "=1.0.104"
swc_common = "=26.0.0"
swc_ecmascript = { version = "=74.0.0", features = ["parser"] }
