[package]
name = "epd_console"
version = "0.1.0"
edition = "2021"
publish = false

[dependencies]
bitvec = "1"
embassy-time = { version = "*", features = ["std"] }
embedded-graphics = "0.8"
embedded-hal = "1"
embedded-hal-async = "1"
heapless = "0.8"
