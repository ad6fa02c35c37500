[package]
name = "ctrlc2"
version = "0.1.0"
edition = "2021"
publish = false

[dependencies]
log = "0.4"
nix = { version = "0.30", features = ["fs", "signal"] }
windows-sys = { version = "0.60", features = ["Win32_Foundation", "Win32_System_Console", "Win32_System_Threading"] }
