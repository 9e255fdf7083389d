[package]
name = "bevy_gltf_basisu"
version = "0.1.0"
edition = "2021"
publish = false

[dependencies]
base64 = "=0.23.1"
percent-encoding = "=2.3.2"
basis_transcoder = "=0.1.3"
wgpu-types = "=30.0.1"
