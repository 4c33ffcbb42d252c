[package]
name = "tapwatch"
version = "0.1.0"
edition = "2021"
publish = false

[dependencies]
base64 = "0.22"
chrono = "0.4"
crossterm = "*"
image = { version = "0.25", default-features = false, features = ["png"] }
libc = "0.2"
once_cell = "1"
rand = "0.8"
ratatui = "*"
rdev = "0.5"
tachyonfx = "*"
tui-big-text = "*"
