[package]
name = "inspect_cert_chain"
version = "0.1.0"
edition = "2021"
publish = false

[dependencies]
x509-cert = "0.2"
der = "0.7"
const-oid = { version = "0.9", features = ["db"] }
pkcs1 = "0.7"
ct-sct = "*"
rustls = { version = "0.23", default-features = false, features = ["ring", "std", "tls12", "logging"] }
rustls-pki-types = "1"
rustls-platform-verifier = "*"
rustls-pemfile = "2"
pem-rfc7468 = { version = "0.7", features = ["alloc"] }
clap = { version = "4", features = ["derive"] }
camino = "1"
eyre = "0.6"
color-eyre = "0.6"
tracing = "0.1"
tracing-subscriber = "0.3"
ratatui = "0.26"
crossterm = "0.27"
