[package]
name = "heatpump"
version = "0.1.0"
edition = "2021"
publish = false

[dependencies]
anyhow = "=1.0.104"
log = "=0.4.34"
paste = "=1.0.15"
enumset = "=1.1.15"
serde = { version = "=1.0.229", features = ["derive"] }
serde_json = "=1.0.154"
embedded-svc = "=0.27.1"
esp-idf-hal = "=0.43.1"
esp-idf-svc = "=0.48.1"
