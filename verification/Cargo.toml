[package]
name = "wiggler"
version = "0.1.0"
edition = "2021"
publish = false

[dependencies]
defmt = "*"
defmt-rtt = "*"
embassy-executor = "*"
embassy-futures = "*"
embassy-rp = "*"
embassy-time = "*"
embassy-usb = "*"
panic-probe = "*"
usbd-hid = "*"
