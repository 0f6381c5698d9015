[package]
name = "ephemera"
version = "0.1.0"
edition = "2021"
publish = false

[dependencies]
libp2p-identity = { version = "=0.3.1", features = ["ed25519", "peerid", "rand"] }
blake2 = "=0.11.0"
bs58 = "=0.5.1"
array-bytes = "=9.3.0"
uuid = { version = "=1.29.0", features = ["v4"] }
lru = "=0.19.0"
prost-types = "=0.14.4"
serde = { version = "=1.0.229", features = ["derive"] }
toml = "=1.1.8"
dirs = "=7.0.0"
clap = { version = "=4.6.7", features = ["derive"] }
anyhow = "=1.0.104"

[dev-dependencies]
serde_json = "1"
