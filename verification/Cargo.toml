[package]
name = "quick_setup"
version = "0.1.0"
edition = "2021"
publish = false

[dependencies]
shell-words = "*"
serde_json = "*"
log = "*"
simplelog = "*"
winreg = "*"
