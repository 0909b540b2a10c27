[package]
name = "jpki"
version = "0.1.0"
edition = "2021"
publish = false

[dependencies]
ring = "*"
x509-certificate = "*"
pcsc = "*"
serde = { version = "*", features = ["derive"] }
serde_json = "*"
