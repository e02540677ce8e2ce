[package]
name = "remora_interceptor"
version = "0.1.0"
edition = "2021"
publish = false

[dependencies]
anyhow = "1"
base64 = "0.22"
chromiumoxide = "*"
futures = "0.3"
sea-orm = { version = "*", default-features = false, features = ["macros"] }
tokio = { version = "1", features = ["macros", "rt-multi-thread", "sync"] }
tracing-subscriber = "0.3"
url = "2"
