[package]
name = "monitoring_system"
version = "0.1.0"
edition = "2021"
publish = false

[dependencies]
serde = { version = "1", features = ["derive"] }
serde_json = "1"
bincode = "1"
log = "0.4"
embedded-svc = "0.25"
esp-idf-hal = "0.41"
esp-idf-svc = "0.46"
esp-idf-sys = "0.33"
