[package]
name = "cotpub"
version = "0.1.0"
edition = "2021"
publish = false

[dependencies]
openssl = "*"
log = "*"

[dev-dependencies]
varint-rs = "*"
prost = "*"
