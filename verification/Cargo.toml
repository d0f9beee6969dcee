[package]
name = "gpioirq"
version = "0.1.0"
edition = "2021"
publish = false

[dependencies]
clap = "2"
evdev = { version = "0.12", features = ["tokio"] }
log = "0.4"
tokio = { version = "1", features = ["macros", "rt", "rt-multi-thread", "sync", "time"] }
