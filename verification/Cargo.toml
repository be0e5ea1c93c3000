[package]
name = "codekeys"
version = "0.1.0"
edition = "2021"
publish = false

[dependencies]
boa_engine = "*"
boa_runtime = "*"
serde_json = "*"
dirs = "*"
log = "*"
