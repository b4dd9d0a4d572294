[package]
name = "vpn-link-handler"
version = "0.1.0"
edition = "2021"
publish = false

[dependencies]
anyhow = "1"
directories = "5"
env_logger = "0.11"
ureq = "2"
winreg = "0.52"
