[package]
name = "common_display"
version = "0.1.0"
edition = "2021"
publish = false

[dependencies]
comfy-table = "7.1"
