[package]
name = "smart_home_firmware"
version = "1.0.0"
edition = "2021"
publish = false

[dependencies]
anyhow = "1"
log = "0.4"
serde = { version = "1", features = ["derive"] }
serde_json = "1"
heapless = "0.8"
esp-idf-svc = "*"
esp-idf-hal = "*"
esp-idf-sys = "*"
