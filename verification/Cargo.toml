[package]
name = "aphanite"
version = "0.1.0"
edition = "2021"
publish = false

[dependencies]
scc = "=3.8.8"
uuid = { version = "=1.29.1", features = ["v4", "v7", "serde"] }
base64 = "=0.23.1"
sha1 = "=0.11.0"
rsa = "=0.10.0-rc.20"
totp-rs = { version = "=6.0.0", features = ["gen_secret", "otpauth"] }
rand = "=0.10.3"
axum = { version = "=0.8.9", features = ["multipart"] }
url = "=2.5.8"
serde = { version = "=1.0.229", features = ["derive"] }
serde_json = "=1.0.154"
tokio = { version = "=1.54.1", features = ["full"] }
toasty = "=0.11.0"
argon2 = "=0.6.0"
jiff = "=0.2.43"
clap = { version = "=4.6.7", features = ["derive"] }
tracing = "=0.1.44"
tracing-subscriber = { version = "=0.3.23", features = ["env-filter"] }
toml = "=1.2.1"
reqwest = { version = "=0.13.5", default-features = false, features = ["json"] }
image = { version = "=0.25.10", default-features = false, features = ["png"] }
tower = "=0.5.3"
tower-http = { version = "=0.7.1", features = ["trace"] }
tokio-cron-scheduler = "=0.15.1"
tokio-util = "=0.7.20"
tokio-stream = "=0.1.19"
axum-client-ip = { version = "=1.3.1", features = ["forwarded-header"] }
anyhow = "=1.0.104"
