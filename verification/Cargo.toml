[package]
name = "rusty_clock_ui"
version = "0.1.0"
edition = "2021"
publish = false

[dependencies]
embedded-graphics = "=0.6.2"
epd-waveshare = "=0.4.0"
bme280 = "=0.2.1"
