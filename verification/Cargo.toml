[package]
name = "filebrowser"
version = "0.1.0"
edition = "2021"
publish = false

[dependencies]
chrono = "0.4"
humansize = "1"
filemagic = "0.12"
termion = "1.5"
tui = { version = "0.19", default-features = false, features = ["termion"] }
