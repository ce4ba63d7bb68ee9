[package]
name = "sight_lidar_core"
version = "0.1.0"
edition = "2021"
publish = false

[dependencies]
crc = "*"
crc32fast = "*"
