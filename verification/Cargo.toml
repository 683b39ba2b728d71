[package]
name = "parsec_tool"
version = "0.1.0"
edition = "2021"
publish = false

[dependencies]
sha2 = "0.10"
base64 = "0.13"
pem = "1"
rcgen = "0.9"
clap = { version = "3.2", features = ["derive"] }
thiserror = "1"
log = "0.4"
env_logger = "0.10"
parsec-client = "*"

[dev-dependencies]
picky-asn1 = "*"
picky-asn1-der = "*"
picky-asn1-x509 = "*"
