[package]
name = "tandem"
version = "0.1.0"
edition = "2021"
publish = false

[dependencies]
anyhow = "1"
async-trait = "0.1"
base64 = "0.22"
chrono = { version = "0.4", features = ["serde"] }
dialoguer = "0.11"
ecdsa = "0.16"
elliptic-curve = { version = "0.13", features = ["arithmetic", "jwk", "sec1"] }
hickory-resolver = "0.24"
json-patch = "1"
k256 = { version = "0.13", features = ["ecdsa", "jwk"] }
multibase = "0.9"
p256 = { version = "0.13", features = ["ecdsa", "jwk"] }
petname = "2"
rand = "0.8"
reqwest = { version = "0.12", default-features = false, features = ["json", "rustls-tls"] }
serde = { version = "1", features = ["derive"] }
serde_ipld_dagcbor = "0.6"
serde_json = "1"
tokio = { version = "1", features = ["macros", "rt-multi-thread"] }
