[package]
name = "pimoroni-pico-explorer"
version = "0.1.0"
edition = "2021"
publish = false

[dependencies]
cortex-m = "0.7"
cortex-m-rt = "0.7"
embedded-graphics = "0.8"
embedded-hal = "1"
embedded-hal-bus = "*"
fugit = "0.3"
mipidsi = "0.9"
rp2040-boot2 = "0.3"
rp2040-hal = "0.11"
static_cell = "2"
