[package]
name = "accord_voice"
version = "0.1.0"
edition = "2021"
publish = false

[dependencies]
anyhow = "1"
bytes = "1"
cpal = "0.15"
dasp_sample = "0.11"
directories = "6"
image = { version = "0.25", default-features = false, features = ["png"] }
iroh-base = { version = "0.35", features = ["ticket"] }
opus = "0.3"
qrcode = { version = "0.14", default-features = false }
rand_core = { version = "0.6", features = ["getrandom"] }
ringbuf = "0.3"
tokio = { version = "1", features = ["full"] }
thiserror = "1"
tokio-stream = { version = "0.1", features = ["sync"] }
tracing = "0.1"
tracing-subscriber = { version = "0.3", features = ["env-filter"] }
