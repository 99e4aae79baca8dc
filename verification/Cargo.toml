[package]
name = "rmk_firmware"
version = "0.1.0"
edition = "2021"
publish = false

[dependencies]
defmt = "=1.2.0"
defmt-rtt = "=1.3.1"
embassy-embedded-hal = "=0.6.0"
embassy-executor = "=0.10.0"
embassy-nrf = { version = "=0.11.0", features = ["nrf52840", "time-driver-rtc1", "gpiote", "unstable-pac", "time"] }
embassy-sync = "=0.8.0"
embassy-time = "=0.5.1"
embedded-hal = "=1.0.0"
nrf-mpsl = { version = "=0.4.0", features = ["nrf52840", "critical-section-impl"] }
nrf-sdc = { version = "=0.4.0", features = ["nrf52840", "peripheral"] }
panic-probe = "=1.0.0"
rand_chacha = { version = "0.3", default-features = false }
rand_core = { version = "0.6", default-features = false }
rmk = { version = "=0.9.0", features = ["nrf52840_ble"] }
static_cell = "=2.1.1"

[lints.rust]
unexpected_cfgs = { level = "warn", check-cfg = ['cfg(feature, values("sensor-rotated-180"))'] }
