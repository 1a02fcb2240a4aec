[package]
name = "gamepad"
version = "0.1.0"
edition = "2021"
publish = false

[dependencies]
defmt = "*"
defmt-rtt = "*"
panic-probe = "*"
embassy-executor = "*"
embassy-futures = "*"
embassy-sync = "*"
embassy-time = "*"
microbit-bsp = "*"
static_cell = "*"
trouble-host = "*"
