[package]
name = "stm32l4_drivers"
version = "0.1.0"
edition = "2021"
publish = false

[dependencies]
cortex-m = "0.7"
cortex-m-rt = "0.7"
panic-halt = "1"
stm32l4 = { version = "*", features = ["stm32l4x6"] }
