[package]
name = "mc-legacy-formatting"
version = "0.3.1"
edition = "2021"
publish = false

[dependencies]
colored = "2"
dialoguer = "0.11"
eframe = "0.15"
