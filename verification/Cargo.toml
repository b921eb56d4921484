[package]
name = "robot_core"
version = "0.1.0"
edition = "2021"
publish = false

[dependencies]
cortex-m = "=0.7.10"
cortex-m-rtic = "=1.1.4"
embedded-hal = "=0.2.7"
panic-halt = "=0.2.0"
stm32l4xx-hal = { version = "=0.7.1", features = ["rt", "stm32l432"] }
systick-monotonic = "=1.0.1"
