[package]
name = "armature_siem"
version = "0.1.0"
edition = "2021"
publish = false

[dependencies]
serde_json = "1"
chrono = "0.4"
uuid = { version = "1", features = ["v4"] }
hostname = "0.4"
base64 = "0.22"
hmac = "0.12"
sha2 = "0.10"
flate2 = "1"
reqwest = { version = "0.12", default-features = false, features = ["rustls-tls"] }
tokio = { version = "1", features = ["full"] }
rustls = { version = "0.23", default-features = false, features = ["ring", "std", "tls12", "logging"] }
tokio-rustls = { version = "0.26", default-features = false, features = ["ring", "logging", "tls12"] }
rustls-pemfile = "2"
webpki-roots = "0.26"
async-trait = "0.1"
tracing = "0.1"
url = "2"
thiserror = "2"
serde = { version = "1", features = ["derive"] }
