[package]
name = "steam_audio"
version = "0.1.0"
edition = "2021"
publish = false

[dependencies]
lewton = "0.10"
glam = "*"
