[package]
name = "astral_power_monitor"
version = "0.1.0"
edition = "2021"
publish = false

[dependencies]
nvapi-sys = "*"
