[package]
name = "servobus"
version = "0.1.0"
edition = "2021"
publish = false

[dependencies]
serialport = { version = "=4.10.1", default-features = false }
anyhow = "1"
ctrlc = "3"
