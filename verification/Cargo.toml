[package]
name = "color_cycle"
version = "0.1.0"
edition = "2021"
publish = false

[dependencies]
cortex-m = "0.6"
embedded-graphics = "0.6"
embedded-hal = "0.2"
ssd1306 = "0.4"
stm32f4xx-hal = { version = "0.8", features = ["stm32f401"] }
