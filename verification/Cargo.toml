[package]
name = "video_upload_core"
version = "0.1.0"
edition = "2021"
publish = false

[dependencies]
ic-agent = "=0.40.1"
candid = "=0.10.39"
k256 = { version = "=0.13.4", features = ["jwk", "ecdsa", "pkcs8", "pem"] }
serde = { version = "=1.0.229", features = ["derive"] }
serde_json = "=1.0.154"
axum = "=0.8.9"
tokio = { version = "=1.54.1", features = ["full"] }
reqwest = { version = "=0.12.28", default-features = false, features = ["json", "rustls-tls"] }
utoipa = "=5.5.0"
uuid = { version = "=1.29.0", features = ["v4"] }
log = "=0.4.34"
env_logger = "=0.11.11"
thiserror = "=2.0.21"
stringreader = "=0.1.1"
sentry = { version = "=0.49.3", default-features = false }
utoipa-swagger-ui = { version = "=9.0.2", features = ["axum", "vendored"] }

[dev-dependencies]
ed25519-consensus = "=2.1.0"
p256 = { version = "=0.13.2", features = ["ecdsa", "pkcs8"] }
