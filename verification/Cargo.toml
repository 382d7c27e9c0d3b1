[package]
name = "imsequencer"
version = "0.1.0"
edition = "2021"
publish = false

[dependencies]
imgui = { version = "=0.12.0", features = ["tables-api"] }
glam = "=0.34.0"
regex = "=1.13.1"
