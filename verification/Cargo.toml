[package]
name = "raycast"
version = "0.1.0"
edition = "2021"

[dependencies]
rayon = "*"
png = "*"
