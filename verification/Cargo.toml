[package]
name = "cw-xrpl"
version = "0.1.0"
edition = "2021"
publish = false

[dependencies]
bs58 = { version = "0.5", default-features = false, features = ["alloc"] }
sha2 = "0.10"
cosmwasm-std = "1.5"
thiserror = "1"

[dev-dependencies]
ripple-keypairs = "*"
rand = "0.8"
