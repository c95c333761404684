[package]
name = "tari_utilities"
version = "0.1.0"
edition = "2021"
publish = false

[dependencies]
base58-monero = { version = "2", default-features = false }
borsh = { version = "1", features = ["derive"] }
chrono = { version = "0.4", default-features = false, features = ["std"] }
log = "0.4"
serde = { version = "1", features = ["derive"] }
snafu = "0.7"
subtle = "2"
thiserror = "1"
zeroize = "1"

[dev-dependencies]
rand = "0.8"
