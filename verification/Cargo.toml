[package]
name = "srxl2"
version = "0.1.0"
edition = "2021"
publish = false

[dependencies]
zerocopy = { version = "0.8", features = ["derive"] }
embedded-io = { version = "0.6" }
embedded-hal = { version = "1" }
ufmt = { version = "0.2" }
panic-halt = { version = "1" }
avr-device = { version = "0.7", features = ["atmega328p"] }
