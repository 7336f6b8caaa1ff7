[package]
name = "id_token_verify"
version = "0.1.0"
edition = "2021"
publish = false

[dependencies]
base64 = "*"
openssl = "*"
serde_json = "*"
tokio = { version = "*", default-features = false, features = ["sync", "rt"] }
