[package]
name = "sel4_build_config"
version = "0.1.0"
edition = "2021"
publish = false

[dependencies]
heck = "=0.3.3"
toml = { version = "=0.5.11", features = ["preserve_order"] }
