[package]
name = "u2u-keyboard"
version = "0.1.0"
edition = "2021"
publish = false

[dependencies]
defmt = "=1.2.0"
embassy-futures = "=0.1.2"
embassy-sync = { version = "=0.8.0", features = ["defmt"] }
embassy-time = { version = "=0.5.1", features = ["defmt"] }
embassy-usb = { version = "=0.6.0", features = ["defmt"] }
embedded-io-async = "=0.7.0"
static_cell = "=2.1.1"
