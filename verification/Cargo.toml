[package]
name = "username_registry"
version = "0.1.0"
edition = "2021"
publish = false

[dependencies]
sp-io = "*"
sp-core = "*"
hex = "*"
clap = { version = "*", features = ["derive"] }
