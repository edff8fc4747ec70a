[package]
name = "kiosk_devices"
version = "0.1.0"
edition = "2021"
publish = false

[dependencies]
cctalk = "*"
clap = { version = "4", features = ["derive"] }
gpio = "0.4"
i2cdev = "0.5"
serde = { version = "1", features = ["derive"] }
serial = "0.4"
serialport = { version = "4", default-features = false }
spidev = "0.5"
termios = "0.3"
toml = "0.5"
