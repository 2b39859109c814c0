[package]
name = "paracord"
version = "0.1.0"
edition = "2021"
publish = false

[dependencies]
anyhow = "=1.0.104"
async-trait = "=0.1.92"
clap = { version = "=4.6.7", features = ["derive", "env"] }
serenity = { version = "=0.11.7", default-features = false, features = ["builder", "client", "gateway", "http", "model", "utils", "rustls_backend"] }

[dev-dependencies]
serde_json = "=1.0.154"
