[package]
name = "rhizo_crypt_core"
version = "0.1.0"
edition = "2021"
publish = false

[dependencies]
blake3 = "=1.8.7"
uuid = { version = "=1.29.0", features = ["v7", "serde"] }
serde = { version = "=1.0.229", features = ["derive"] }
serde_json = "=1.0.154"
tokio = { version = "=1.54.1", features = ["net", "io-util", "time", "rt", "macros", "sync"] }
thiserror = "=2.0.21"
hashbrown = "=0.15.5"
getrandom = "=0.4.3"

[dev-dependencies]
bytes = "=1.12.1"
