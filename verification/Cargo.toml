[package]
name = "rgb_lightning_sample"
version = "0.1.0"
edition = "2021"
publish = false

[dependencies]
actix-web = { version = "4", default-features = false, features = ["macros"] }
amplify = "=3.13.0"
base64 = "=0.13.1"
bdk = { version = "=0.27.1", default-features = false, features = ["sqlite-bundled"] }
bitcoin = "=0.29.2"
bp-core = { version = "=0.9.0", features = ["serde"] }
hex = "=0.4.3"
lnpbp-invoice = "=0.9.1"
lightning = "=0.0.115"
lightning-invoice = "=0.23.0"
lightning-net-tokio = "=0.0.115"
rand = "=0.8.8"
reqwest = { version = "0.11", default-features = false, features = ["json", "multipart"] }
rgb-std = "=0.9.0"
rgb_rpc = "=0.9.1"
serde = { version = "1", features = ["derive"] }
serde_json = "1"
stens = "=0.9.0"
strict_encoding = "=0.9.0"
tokio = { version = "1", features = ["io-util", "macros", "rt", "rt-multi-thread", "sync", "net", "time"] }
