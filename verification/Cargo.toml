[package]
name = "ldk_node"
version = "0.1.0"
edition = "2021"
publish = false

[dependencies]
tokio = { version = "1", default-features = false, features = ["rt-multi-thread", "time", "sync", "macros"] }
lightning = { version = "0.0.125", features = ["std"] }
lightning-transaction-sync = { version = "0.0.125", features = ["esplora-async-https"] }
bdk_esplora = { version = "0.19.0", default-features = false, features = ["async-https-rustls"] }
bdk_wallet = { version = "=1.0.0-beta.5", default-features = false, features = ["std"] }
esplora-client = { version = "0.9", default-features = false }
bitcoin = "0.32.2"
reqwest = { version = "0.11", default-features = false, features = ["json", "rustls-tls"] }
