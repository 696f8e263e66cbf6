[package]
name = "quick_aqi"
version = "0.1.0"
edition = "2021"
publish = false

[dependencies]
libm = "=0.2.16"
cortex-m-semihosting = "=0.5.0"
defmt-rtt = "=1.3.1"
panic-probe = "=1.0.0"
embassy-executor = "=0.9.1"
embassy-stm32 = { version = "=0.6.0", features = ["stm32f303vc", "exti", "time-driver-any"] }
