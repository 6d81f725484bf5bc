[package]
name = "comfygit"
version = "0.1.0"
edition = "2021"
publish = false

[dependencies]
anyhow = "=1.0.104"
arboard = { version = "*", default-features = false }
crossterm = "=0.29.0"
ratatui = "=0.30.2"
windows-sys = { version = "=0.61.2", features = ["Win32_Foundation", "Win32_System_Console"] }
