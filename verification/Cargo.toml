[package]
name = "esp_ota"
version = "0.1.0"
edition = "2021"
publish = false

[dependencies]
heapless = "=0.7.17"
embedded-svc = "=0.26.4"
esp-idf-sys = "=0.33.7"
num_enum = "=0.7.6"
log = "=0.4.34"
