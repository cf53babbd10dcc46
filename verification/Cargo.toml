[package]
name = "pender"
version = "0.1.0"
edition = "2021"
publish = false

[dependencies]
rand = "0.8"
pwhash = "1"
jwt = "0.16"
hmac = "0.12"
sha2 = "0.10"
serde = { version = "1", features = ["derive"] }
serde_json = "1"
image-base64 = "0.1"
tide = "0.16"
tide-tera = "0.2"
tide-sqlx = "0.6"
tide-governor = "1"
tera = "1"
sqlx = { version = "0.5", default-features = false, features = ["runtime-async-std-rustls", "postgres"] }
async-std = { version = "1", features = ["attributes"] }
time = "0.2"
uuid = { version = "1", features = ["v4"] }
