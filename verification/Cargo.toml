[package]
name = "sfy"
version = "0.1.0"
edition = "2021"
publish = false

[dependencies]
chrono = { version = "0.4", default-features = false }
heapless = "0.7"
embedded-hal = "0.2"
embedded-sdmmc = "0.4"
cortex-m = "0.7"
defmt = "0.3"
ambiq-hal = "0.3"
