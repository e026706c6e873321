[package]
name = "farcaster_node"
version = "0.4.0"
edition = "2021"
publish = false

[dependencies]
amplify = "=3.14.2"
base58-monero = "=1.0.0"
bitcoin = { version = "=0.28.1", features = ["rand"] }
bitcoincore-rpc = "=0.15.0"
clap = { version = "=3.2.25", features = ["derive"] }
farcaster_core = "=0.5.1"
internet2 = { version = "=0.8.4", features = ["keygen"] }
lnp-core = "0.8"
lnpbp = "0.8"
log = "=0.4.35"
microservices = { version = "=0.8.10", features = ["node"] }
monero = "=0.17.3"
monero-rpc = "=0.2.0"
serde = "=1.0.152"
shellexpand = "=2.1.2"
tokio = { version = "=1.54.1", features = ["rt-multi-thread", "net", "time"] }
torut = "=0.2.1"
uuid = "=1.18.1"
