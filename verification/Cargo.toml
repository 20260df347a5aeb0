[package]
name = "growbot"
version = "0.1.0"
edition = "2021"
publish = false

[dependencies]
regex = "=1.13.1"
base64 = "=0.22.1"
json = "=0.12.4"
ureq = "=2.12.1"
enet = "*"
spdlog-rs = "*"
tokio = { version = "1", features = ["full"] }
futures = "0.3"
chromiumoxide = "*"
rust-otp = "*"
