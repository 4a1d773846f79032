[package]
name = "norm_decimal"
version = "0.1.0"
edition = "2021"
publish = false

[dependencies]
rust_decimal = { version = "1", features = ["serde", "borsh"] }
serde = { version = "1", features = ["derive"] }
borsh = { version = "1", features = ["derive"] }
sqlx = { version = "*", default-features = false, features = ["derive", "rust_decimal"] }
