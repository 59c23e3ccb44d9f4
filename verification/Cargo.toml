[package]
name = "marvelsnapdeck"
version = "0.1.0"
edition = "2021"
publish = false

[dependencies]
base64 = "*"
serde = "*"
serde_derive = "*"
serde_json = "*"
thiserror = "*"
