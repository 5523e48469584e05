[package]
name = "ht32_hal"
version = "0.1.0"
edition = "2021"
publish = false

[dependencies]
ht32f5xxxx = { version = "*", features = ["ht32f52342_52"] }
cortex-m = "0.7"
embedded-hal = "0.2"
nb = "1"
