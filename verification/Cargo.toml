[package]
name = "x5chain"
version = "0.1.0"
edition = "2021"
publish = false

[dependencies]
anyhow = "1"
ecdsa = { version = "0.16", features = ["der", "verifying"] }
elliptic-curve = { version = "0.13", features = ["pkcs8", "sec1"] }
p256 = "0.13"
pem-rfc7468 = { version = "0.7", features = ["alloc"] }
serde = { version = "1", features = ["derive"] }
serde_cbor = "0.11"
signature = "2"
x509-cert = "0.2"
