[package]
name = "forbidden"
version = "0.1.0"
edition = "2021"
publish = false

[dependencies]
argon2 = "0.4"
chrono = { version = "0.4", default-features = false, features = ["std"] }
password-hash = { version = "0.4", features = ["rand_core"] }
rand_core = { version = "0.6", features = ["std"] }
scrypt = "0.10"
