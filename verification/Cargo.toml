[package]
name = "value_types"
version = "0.1.0"
edition = "2021"
publish = false

[dependencies]
twox-hash = { version = "=1.6.3", default-features = false }
serde = { version = "1", features = ["derive"] }
