[package]
name = "radar_monitor"
version = "0.1.0"
edition = "2021"
publish = false

[dependencies]
crossterm = "0.25"
serialport = { version = "4", default-features = false }
tui = "0.19"
