[package]
name = "board_firmware"
version = "0.1.0"
edition = "2021"
publish = false

[dependencies]
cortex-m = { version = "=0.7.10", features = ["critical-section-single-core"] }
defmt = "=1.2.0"
defmt-rtt = "=1.3.1"
embassy-stm32 = { version = "=0.6.0", features = ["stm32h723zg", "time-driver-any", "defmt"] }
embassy-time = { version = "=0.5.1", features = ["defmt"] }
panic-probe = { version = "=1.0.0", features = ["print-defmt"] }
stm32-metapac = { version = "=21.0.0", features = ["stm32h723zg"] }
