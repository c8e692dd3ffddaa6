[package]
name = "zed_apex"
version = "0.1.0"
edition = "2021"
publish = false

[dependencies]
reqwest = { version = "*", features = ["blocking"] }
zed_extension_api = "*"
