[package]
name = "bevy_crt_galore"
version = "0.1.0"
edition = "2021"
publish = false
