[package]
name = "kiss"
version = "0.1.0"
edition = "2021"
publish = false

[dependencies]
async-trait = "0.1"
base64 = "0.21"
config = { version = "0.13", default-features = false, features = ["yaml"] }
env_logger = "0.10"
futures = "0.3"
hex = "0.4"
libp2p = { version = "0.52", features = ["cbor", "kad", "macros", "mdns", "noise", "request-response", "tcp", "tokio", "yamux"] }
libp2p-identity = { version = "0.2", features = ["ed25519", "peerid", "rand"] }
log = "0.4"
object_store = "0.6"
prost = "0.11"
rand = "0.8"
serde = { version = "1", features = ["derive"] }
serde_yaml = "0.9"
sha3 = "0.10"
time = "0.3"
tokio = { version = "1", features = ["full"] }
tonic = "0.9"
uuid = { version = "1", features = ["v4"] }
