[package]
name = "shamir_secret_sharing"
version = "0.1.0"
edition = "2021"
publish = false

[dependencies]
rand = "0.8"
sm2 = { version = "0.13", default-features = false, features = ["arithmetic"] }
