[package]
name = "mailauth"
version = "0.1.0"
edition = "2021"
publish = false

[dependencies]
proton-srp = "*"
parking_lot = "*"
secrecy = "*"
log = "*"
thiserror = "*"
serde = { version = "*", features = ["derive"] }
serde_json = "*"
serde_repr = "*"
