[package]
name = "shell_terminal"
version = "0.1.0"
edition = "2021"
publish = false

[dependencies]
anyhow = "1"
chrono = "0.4"
colored = "2"
crossterm = "0.27"
dirs-next = "2"
filetime = "0.2"
portable-pty = "0.8"
tokio = { version = "1", features = ["rt-multi-thread", "macros", "io-std", "io-util"] }
vt100 = "0.15"
