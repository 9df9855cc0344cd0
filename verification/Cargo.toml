[package]
name = "aura_backend"
version = "0.1.0"
edition = "2021"
publish = false

[dependencies]
async-stripe = { version = "=0.41.0", default-features = false, features = ["runtime-tokio-hyper-rustls", "billing"] }
chrono = { version = "=0.4.45", default-features = false, features = ["clock", "std"] }
dotenv = "=0.15.0"
hex = "=0.4.3"
rand = "=0.8.8"
reqwest = { version = "=0.12.28", default-features = false, features = ["json", "rustls-tls"] }
serde = { version = "=1.0.229", features = ["derive"] }
serde_json = "=1.0.154"
sha2 = "=0.10.9"
