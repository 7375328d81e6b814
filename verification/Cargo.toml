[package]
name = "pulse_core"
version = "0.1.0"
edition = "2021"
publish = false

[dependencies]
aes-gcm = "=0.10.3"
x25519-dalek = { version = "=2.0.1", features = ["static_secrets"] }
ed25519-dalek = "=2.2.0"
hkdf = "=0.12.4"
sha2 = "=0.10.9"
rand = "=0.8.8"
zeroize = "=1.9.1"
jsonwebtoken = "=9.3.1"
chrono = { version = "=0.4.45", features = ["serde"] }
uuid = { version = "=1.29.0", features = ["v4", "serde"] }
serde = { version = "=1.0.229", features = ["derive"] }
serde_json = "=1.0.154"
thiserror = "=1.0.69"
rust-argon2 = "=2.1.0"
tokio = { version = "=1.54.1", features = ["rt-multi-thread", "macros", "net"] }
axum = "=0.6.20"
sqlx = { version = "=0.7.4", default-features = false, features = ["sqlite", "runtime-tokio"] }
reqwest = { version = "=0.11.27", default-features = false, features = ["json", "rustls-tls"] }
dirs = "=5.0.1"
dotenv = "=0.15.0"
env_logger = "=0.10.2"
tracing = "=0.1.44"
tracing-subscriber = "=0.3.23"
