[package]
name = "vkey"
version = "0.1.0"
edition = "2021"
publish = false

[dependencies]
vi = "*"
serde = { version = "*", features = ["derive"] }
serde_json = "*"
thiserror = "*"
once_cell = "*"
