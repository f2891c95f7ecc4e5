[package]
name = "compio-compat"
version = "0.1.0"
edition = "2021"
publish = false

[dependencies]
compio = "=0.19.2"
compio-log = "=0.2.1"
rustix = { version = "=1.1.6", features = ["event", "io_uring", "time"] }
flume = "=0.11.1"
futures-util = "=0.3.34"
smol = "=2.0.2"
pin-project-lite = "=0.2.17"
windows-sys = { version = "=0.61.2", features = ["Win32_Foundation", "Win32_Security", "Win32_System_Threading"] }
