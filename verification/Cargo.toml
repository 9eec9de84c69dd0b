[package]
name = "depth_pyramid"
version = "0.1.0"
edition = "2021"
publish = false

[dependencies]
ash = "=0.37.3"
vk-mem = "=0.3.0"
