[package]
name = "pebbles_game"
version = "0.1.0"
edition = "2021"
publish = false

[dependencies]
gstd = "=2.0.0"
gmeta = "=1.7.1"
parity-scale-codec = "=3.7.5"
scale-info = "=2.11.6"
