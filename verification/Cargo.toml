[package]
name = "color_ssh"
version = "0.1.0"
edition = "2021"
publish = false

[dependencies]
crossterm = "0.29"
chrono = "0.4"
