[package]
name = "mexc"
version = "0.1.0"
edition = "2021"
publish = false

[dependencies]
hex = "*"
hmac = "*"
sha2 = "*"
serde = { version = "*", features = ["derive"] }
serde_json = "*"
serde_urlencoded = "*"
reqwest = { version = "*", features = ["json"] }
async-trait = "*"
chrono = "*"
rust_decimal = "*"
thiserror = "*"
