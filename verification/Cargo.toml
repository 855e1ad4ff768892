[package]
name = "token_vesting"
version = "0.1.0"
edition = "2021"
publish = false

[dependencies]
chrono = { version = "0.4", default-features = false }
anchor-lang = { version = "0.31", features = ["init-if-needed"] }
anchor-spl = "0.31"
