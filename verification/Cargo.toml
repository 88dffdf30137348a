[package]
name = "ds18b20_telemetry"
version = "0.1.0"
edition = "2021"
publish = false

[dependencies]
serde_json = "=1.0.154"
anyhow = "=1.0.104"
log = "=0.4.34"
heapless = "=0.9.3"
onewire = "=0.4.0"
esp-idf-hal = "=0.47.0"
esp-idf-svc = "=0.53.0"
esp-idf-sys = "=0.38.1"
