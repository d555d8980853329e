[package]
name = "http_over_ws"
version = "0.1.0"
edition = "2021"
publish = false

[dependencies]
base64 = "0.21"
bs58 = "0.5"
candid = "0.10"
ic-cdk = "0.12"
ic-cdk-timers = "0.6"
ic-websocket-cdk = "0.3"
ripemd = "0.1"
serde = { version = "1", features = ["derive"] }
serde_json = "1"
sha2 = "0.10"
url = "2"
utc-dt = "*"
