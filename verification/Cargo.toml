[package]
name = "rebe_core"
version = "0.1.0"
edition = "2021"
publish = false

[dependencies]
aes-gcm = "=0.10.3"
base64 = "=0.22.1"
bs58 = "=0.5.1"
chrono = "=0.4.45"
ed25519-dalek = { version = "=2.2.0", features = ["rand_core"] }
hex = "=0.4.3"
hkdf = "=0.12.4"
log = "=0.4.34"
ort = { version = "=2.0.0-rc.15", default-features = false, features = ["load-dynamic"] }
rand = "=0.8.8"
reqwest = { version = "=0.12.28", default-features = false, features = ["json", "rustls-tls"] }
rusqlite = { version = "=0.32.1", features = ["bundled"] }
serde = { version = "=1.0.229", features = ["derive"] }
serde_json = "=1.0.154"
sha2 = "=0.10.9"
sqlite-vec = "=0.1.9"
tokenizers = { version = "=0.23.2", default-features = false, features = ["onig"] }
uuid = { version = "=1.29.0", features = ["v4"] }
