[package]
name = "knx_blinds"
version = "0.1.0"
edition = "2021"
publish = false

[dependencies]
libc = "*"
termios = "*"
tokio = { version = "*", features = ["rt", "sync", "time", "net", "io-util", "macros"] }
rumqttc = "*"
