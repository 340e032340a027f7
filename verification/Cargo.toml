[package]
name = "lsm6dsox"
version = "0.1.0"
edition = "2021"
publish = false

[dependencies]
embedded-hal = "0.2"
generic-array = "0.14"
cortex-m = "0.7"
cortex-m-rt = "0.7"
panic-halt = "0.2"
rtt-target = "*"
stm32f4xx-hal = { version = "*", features = ["stm32f411"] }
