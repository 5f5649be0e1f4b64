[package]
name = "frame_hooks"
version = "0.1.0"
edition = "2021"
publish = false

[dependencies]
egui = "*"
parking_lot = "*"
arc-swap = "*"
