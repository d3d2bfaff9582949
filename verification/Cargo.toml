[package]
name = "test_bno080_ehal"
version = "0.1.0"
edition = "2021"
publish = false

[dependencies]
bno080 = "=0.1.3"
cortex-m = "=0.6.7"
cortex-m-rt = "=0.6.15"
embedded-hal = "=0.2.7"
panic-rtt-core = "=0.1.1"
stm32f3xx-hal = { version = "=0.4.3", features = ["stm32f303", "rt"] }
stm32f4xx-hal = { version = "0.8", features = ["stm32f401", "rt"] }
stm32h7xx-hal = { version = "0.5", features = ["stm32h743", "rt"] }
nrf52832-hal = "0.10"
