[package]
name = "audiopus"
version = "0.3.0"
edition = "2021"
publish = false

[dependencies]
audiopus_sys = "*"
