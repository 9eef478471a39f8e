[package]
name = "drogue_board"
version = "0.1.0"
edition = "2021"
publish = false

[dependencies]
drogue-device = "*"
stm32l4xx-hal = { version = "*", features = ["stm32l4x5", "rt"] }
embedded-hal = "0.2"
cortex-m = "*"
cortex-m-rt = "*"
log = "*"
rtt-target = "*"
rtt-logger = "*"
panic-rtt-target = "*"
