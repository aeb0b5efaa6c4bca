[package]
name = "escpos_lib"
version = "0.1.0"
edition = "2021"
publish = false

[dependencies]
lazy_static = "=1.5.1"
serde = { version = "=1.0.229", features = ["derive"] }
serialport = { version = "=4.10.1", default-features = false }
telegram-bot = "=0.8.0"
toml = "=0.5.11"
tracing = "=0.1.44"
