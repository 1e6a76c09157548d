[package]
name = "semi"
version = "0.1.0"
edition = "2021"
publish = false

[dependencies]
oneshot = "0.1"
atomic = "0.6"
bytemuck = { version = "1", features = ["derive"] }
num_enum = "0.7"
