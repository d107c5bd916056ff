[package]
name = "wgpu_sandbox"
version = "0.1.0"
edition = "2021"
publish = false

[dependencies]
futures-lite = "1"
imgui = "0.8"
imgui-wgpu = "0.19"
imgui-winit-support = { version = "0.8", default-features = false, features = ["winit-26"] }
wgpu = "0.12"
wgpu-subscriber = "0.1"
winit = "0.26"
