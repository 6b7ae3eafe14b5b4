[package]
name = "space_invaders_core"
version = "0.1.0"
edition = "2021"
publish = false

[dependencies]
intel-8080-emu = "*"
