[package]
name = "commitment_lock"
version = "0.1.0"
edition = "2021"
publish = false

[dependencies]
ckb-hash = { version = "*", default-features = false, features = ["ckb-contract"] }
ckb-std = { version = "0.15" }
hex = { version = "0.4", default-features = false, features = ["alloc"] }
sha2 = { version = "0.10", default-features = false }
