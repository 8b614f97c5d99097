[package]
name = "sensorloop"
version = "0.1.0"
edition = "2021"
publish = false

[dependencies]
cortex-m = "0.6"
embedded-hal = { version = "0.2", features = ["unproven"] }
stm32f4xx-hal = { version = "0.8", features = ["stm32f411"] }
