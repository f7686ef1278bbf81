[package]
name = "maker_firmware"
version = "0.1.0"
edition = "2021"
publish = false

[dependencies]
embedded-graphics = "=0.8.2"
embedded-hal = "=1.0.0"
embedded-text = "=0.7.3"
epd-waveshare = "=0.6.0"
heapless = "0.8"
ufmt = "=0.2.0"
