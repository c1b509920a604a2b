[package]
name = "photon_types"
version = "0.1.0"
edition = "2021"
publish = false

[dependencies]
bitcoin = "0.32"
borsh = { version = "1", features = ["std"] }
hex = { version = "0.4", features = ["serde"] }
serde = { version = "1", features = ["derive"] }
thiserror = "2"
