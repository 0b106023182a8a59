[package]
name = "cassandra"
version = "0.1.0"
edition = "2021"
publish = false

[dependencies]
candid = "=0.10.39"
hex = "=0.4.3"
ic-cdk = "=0.13.6"
ic-stable-structures = "=0.7.2"
ic-web3-rs = "=0.1.11"
jwt = "=0.16.0"
serde = { version = "=1.0.229", features = ["derive"] }
serde_json = "=1.0.154"
serde_qs = "=1.1.3"
thiserror = "=1.0.69"
urlencoding = "=2.1.3"

[dev-dependencies]
base64 = "=0.13.1"
libsecp256k1 = "=0.7.2"
