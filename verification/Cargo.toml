[package]
name = "dlss_wgpu"
version = "0.1.0"
edition = "2021"
publish = false

[dependencies]
ash = "0.38"
glam = "*"
thiserror = "2"
uuid = "1"
wgpu = "26"
