[package]
name = "voxel_world"
version = "0.1.0"
edition = "2021"
publish = false

[dependencies]
linked-hash-map = "=0.5.6"
noise = "*"
png = "=0.18.1"
