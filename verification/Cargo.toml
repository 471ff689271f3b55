[package]
name = "investments"
version = "0.1.0"
edition = "2021"
publish = false

[dependencies]
rust_decimal = "=1.43.0"
chrono = { version = "=0.4.45", default-features = false, features = ["std"] }
csv = "=1.4.0"
isin = "*"
