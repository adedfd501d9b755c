[package]
name = "hackeeg"
version = "0.1.0"
edition = "2021"
publish = false

[dependencies]
base64 = "0.13"
serialport = { version = "4", default-features = false }
signal-hook = "0.3"

[dev-dependencies]
serde_json = "1"
byteorder = "1"
