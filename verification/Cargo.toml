[package]
name = "sqlite_proxy"
version = "0.1.0"
edition = "2021"
publish = false

[dependencies]
time = { version = "=0.3.55", features = ["formatting", "parsing"] }
spin-sdk = "=2.1.0"
wit-bindgen = "0.13"
serde = { version = "=1.0.229", features = ["derive"] }
serde_json = "=1.0.154"
serde_qs = "=1.1.3"
anyhow = "=1.0.104"

[dev-dependencies]
rusqlite = { version = "=0.40.2", features = ["bundled"] }
