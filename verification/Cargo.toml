[package]
name = "totp_generator"
version = "0.1.0"
edition = "2021"
publish = false

[dependencies]
actix-web = { version = "4", default-features = false, features = ["macros"] }
anyhow = "1"
base32 = "0.4"
base64 = "0.22"
clap = { version = "4", features = ["derive", "env"] }
copypasta = { version = "0.10", default-features = false, features = ["x11"] }
crossterm = { version = "0.28", features = ["event-stream"] }
hmac = "0.12"
image = { version = "0.25", default-features = false, features = ["png", "jpeg"] }
libloading = "0.8"
prost = "0.13"
ratatui = "0.29"
rqrr = "*"
serde = { version = "1", features = ["derive"] }
serde_json = "1"
sha1 = "0.10"
time = { version = "0.3", features = ["formatting", "local-offset", "parsing"] }
tokio = { version = "1", features = ["rt-multi-thread", "macros", "fs", "sync", "signal", "time", "io-util"] }
tokio-stream = "0.1"
tracing = "0.1"
tracing-appender = "0.2"
tracing-subscriber = { version = "0.3", features = ["env-filter"] }
url = "2"
