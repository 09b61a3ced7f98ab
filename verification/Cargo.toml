[package]
name = "quicksilver_errors"
version = "0.1.0"
edition = "2021"
publish = false

[dependencies]
image = { version = "*", default-features = false, features = ["png"] }
rodio = { version = "*", default-features = false }
rusttype = "0.7"
serde_json = "1"
