[package]
name = "redirect_gateway"
version = "0.1.0"
edition = "2021"
publish = false

[dependencies]
base64 = "0.13"
bcrypt = "*"
percent-encoding = "2"
uuid = { version = "1", features = ["v4"] }
tokio = { version = "1", features = ["full"] }
hyper = { version = "0.14", features = ["full"] }
hyper-tls = "0.5"
bb8 = "0.8"
bb8-postgres = "0.8"
tokio-postgres = "0.7"
serde = { version = "1", features = ["derive"] }
serde_json = "1"
serde_qs = "*"
