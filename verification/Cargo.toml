[package]
name = "rc_receiver"
version = "0.1.0"
edition = "2021"
publish = false

[dependencies]
simple-bitset = "=0.1.9"
serde = { version = "=1.0.229", default-features = false, features = ["derive"] }
postcard = { version = "=1.1.3", features = ["experimental-derive"] }
sequential-storage = { version = "=8.0.2", features = ["postcard"] }
embedded-hal-nb = "=1.0.0"
nb = "=1.1.0"
