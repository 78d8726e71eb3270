[package]
name = "esp_ieee802154"
version = "0.1.0"
edition = "2021"
publish = false

[dependencies]
ieee802154 = "0.6"
byte = "0.2"
heapless = "0.7"
