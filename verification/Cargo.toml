[package]
name = "openlogi_desktop"
version = "0.1.0"
edition = "2021"
publish = false

[dependencies]
evdev = "*"
opener = "*"
walkdir = "2"
