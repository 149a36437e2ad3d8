[package]
name = "trip_planner"
version = "0.1.0"
edition = "2021"
publish = false

[dependencies]
anyhow = "=1.0.104"
random-string = "=1.1.0"
serde_json = "=1.0.151"
spin-sdk = "=3.1.1"
