[package]
name = "godfather_backend"
version = "0.1.0"
edition = "2021"
publish = false

[dependencies]
chrono = "=0.4.45"
bcrypt = "=0.19.3"
jsonwebtoken = { version = "=11.1.0", features = ["rust_crypto"] }
serde_json = "=1.0.151"
