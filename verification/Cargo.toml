[package]
name = "vesta"
version = "0.2.0"
edition = "2021"
publish = false

[dependencies]
bme68x = "0.2.0"
embedded-hal = "1.0"
embedded-hal-async = "1.0"
lora-phy = "3.0.1"
embassy-time = "0.5"
embassy-sync = "0.7"
embassy-executor = "0.9"
embassy-stm32 = { version = "*", features = ["stm32wle5cc", "time-driver-any", "unstable-pac"] }
defmt = "1.0"
defmt-rtt = "1.0"
panic-probe = "1.0"
