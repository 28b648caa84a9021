[package]
name = "fan_light"
version = "0.1.0"
edition = "2021"
publish = false
