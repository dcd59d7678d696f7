[package]
name = "alias_pay"
version = "0.1.0"
edition = "2021"
publish = false

[dependencies]
base64 = "=0.23.1"
secret-cosmwasm-std = "=1.1.11"
secret-toolkit = { version = "=0.10.3", default-features = false, features = ["crypto", "snip20"] }
serde = { version = "=1.0.229", features = ["derive"] }
