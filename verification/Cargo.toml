[package]
name = "peckboard"
version = "0.1.0"
edition = "2021"
publish = false

[dependencies]
alsa = "=0.12.1"
argh = "=0.1.19"
chrono = "=0.4.45"
futures = "=0.3.34"
gpio-cdev = { version = "=0.6.0", features = ["async-tokio"] }
i2cdev = "*"
log = "=0.4.34"
simple_logger = "=5.2.0"
sndfile = "=0.1.1"
thiserror = "=2.0.21"
tokio = { version = "=1.54.1", features = ["full"] }
vl53l4cd = "*"
