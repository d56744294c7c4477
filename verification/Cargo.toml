[package]
name = "excedencia"
version = "0.1.0"
edition = "2021"
publish = false

[dependencies]
serde = { version = "=1.0.229", features = ["derive"] }
serde_json = "=1.0.151"
tokio = { version = "=1.53.2", features = ["rt-multi-thread", "macros"] }
rmcp = { version = "*", default-features = false, features = ["server", "macros"] }
zen-engine = { version = "=0.43.1", default-features = false }
