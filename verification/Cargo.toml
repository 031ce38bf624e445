[package]
name = "cable_timer"
version = "0.1.0"
edition = "2021"
publish = false

[dependencies]
anyhow = "1"
chrono = { version = "0.4", default-features = false, features = ["std"] }
chrono-tz = "*"
embedded-graphics = "*"
esp-idf-hal = "*"
esp-idf-svc = "*"
esp-println = "*"
heapless = "*"
serde_json = "1"
ssd1306 = "*"
