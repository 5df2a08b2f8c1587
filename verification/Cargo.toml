[package]
name = "clix"
version = "0.1.0"
edition = "2021"
publish = false

[dependencies]
napi = { version = "2", default-features = false, features = ["napi4", "async"] }
napi-derive = "2"
rexpect = "0.5"
