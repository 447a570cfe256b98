[package]
name = "vkboot"
version = "0.1.0"
edition = "2021"
publish = false

[dependencies]
ash = "0.34"
num = "0.4"
winapi = { version = "0.3", features = ["libloaderapi", "windef"] }
winit = "0.25"
