[package]
name = "bounce"
version = "0.1.0"
edition = "2021"
publish = false

[dependencies]
bytes = "0.4"
futures = "0.1"
tokio-io = "0.1"
tokio-core = "0.1"
time = "0.1"
rpassword = "5"
serde = "1"
serde_derive = "1"
toml = "0.4"
