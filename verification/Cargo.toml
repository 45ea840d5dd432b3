[package]
name = "ceramic-pocket-knife"
version = "0.1.0"
edition = "2021"
publish = false

[dependencies]
anyhow = "1"
arrow = { version = "53", default-features = false, features = ["csv", "json", "prettyprint"] }
chrono = { version = "0.4", default-features = false, features = ["clock", "std"] }
cid = "=0.11.3"
clap = { version = "4", features = ["derive"] }
clap_complete_command = "=0.6.1"
dag-jose = "=0.2.0"
env_logger = { version = "0.11", default-features = false }
futures = "=0.3.34"
hex = "=0.4.3"
ipld-core = "=0.4.3"
iroh-car = "=0.5.1"
libp2p-identity = { version = "=0.3.0", features = ["peerid", "rand"] }
multibase = "=0.9.3"
multihash = "=0.19.5"
multihash-codetable = { version = "=0.2.2", features = ["sha2", "sha3"] }
multihash-derive = "=0.9.3"
parquet = { version = "53", default-features = false, features = ["arrow", "async"] }
rand = "=0.8.8"
reqwest = { version = "0.12", default-features = false, features = ["rustls-tls"] }
serde = { version = "1", features = ["derive"] }
serde_ipld_dagcbor = "=0.7.0"
serde_ipld_dagjson = "=0.2.2"
tokio = { version = "=1.54.1", features = ["rt-multi-thread", "macros", "io-std", "io-util", "fs", "time"] }
uuid = { version = "=1.29.0", features = ["v4"] }
