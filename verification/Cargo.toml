[package]
name = "traffic-light-display"
version = "0.3.0"
edition = "2021"
publish = false

[dependencies]
smart-leds = "=0.4.0"
embedded-svc = "=0.28.1"
esp-idf-hal = "=0.45.2"
esp-idf-svc = "=0.51.0"
ws2812-esp32-rmt-driver = { version = "=0.13.1", features = ["smart-leds-trait"] }
