[package]
name = "digsigctl"
version = "0.1.0"
edition = "2021"
publish = false

[dependencies]
subprocess = "=0.2.15"
home = "=0.5.12"
beep-evdev = "=0.3.2"
serde = { version = "=1.0.229", features = ["derive"] }
serde_json = "=1.0.151"
system_shutdown = "=4.1.0"
