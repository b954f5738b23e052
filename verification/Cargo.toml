[package]
name = "aliyun_auth"
version = "0.1.0"
edition = "2021"
publish = false

[dependencies]
alibabacloud = "=0.1.1"
anyhow = "=1.0.104"
log = "=0.4.34"
reqwest = { version = "=0.12.28", default-features = false }
serde = { version = "=1.0.229", features = ["derive"] }
serde_json = "=1.0.154"
thiserror = "=2.0.21"
