[package]
name = "zk_donations"
version = "0.1.0"
edition = "2021"
publish = false

[dependencies]
account-compression = { version = "=2.0.0", features = ["cpi"] }
anchor-lang = "=0.31.1"
anchor-spl = { version = "=0.31.1", default-features = false, features = ["token"] }
