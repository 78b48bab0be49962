[package]
name = "master_time"
version = "0.1.0"
edition = "2021"
publish = false

[dependencies]
chrono = "0.4"
serde_json = "1"
ureq = { version = "2", default-features = false }
