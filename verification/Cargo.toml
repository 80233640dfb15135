[package]
name = "harmonic"
version = "0.1.0"
edition = "2021"
publish = false

[dependencies]
dirs = "*"
serde = { version = "*", features = ["derive"] }
thiserror = "*"
tokio = { version = "*", features = ["process", "rt"] }
reqwest = { version = "*", default-features = false }
