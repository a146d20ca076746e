[package]
name = "rocket_cors"
version = "0.1.0"
edition = "2021"
publish = false

[dependencies]
hyper = "0.10"
rocket = { version = "0.5", default-features = false }
unicase = "1"
