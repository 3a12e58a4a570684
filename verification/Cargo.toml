[package]
name = "nviq_ime"
version = "0.1.0"
edition = "2021"
publish = false

[dependencies]
jieba-rs = "*"
once_cell = "*"
core-foundation = "*"
winapi = { version = "*", features = ["winuser", "minwindef"] }
dark-light = "*"
