[package]
name = "yokai_core"
version = "0.1.0"
edition = "2021"
publish = false

[dependencies]
openssl = "=0.10.81"
base64 = "=0.22.1"
sha2 = "=0.10.9"
bcrypt = "=0.19.3"
chrono = "=0.4.45"
serde = { version = "=1.0.229", features = ["derive"] }
actix-web = "=4.15.0"
