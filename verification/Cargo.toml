[package]
name = "imgui_app"
version = "0.1.0"
edition = "2021"
publish = false

[dependencies]
image = { version = "=0.25.10", default-features = false, features = ["png"] }
png = "=0.18.1"
byteorder-lite = "=0.1.0"
thiserror = "=2.0.21"
dear-imgui-rs = "=0.22.0"
dear-imgui-sdl3 = "=0.22.0"
dear-imgui-wgpu = "=0.22.0"
sdl3 = "=0.20.0"
wgpu = "=30.0.1"
pollster = "=1.0.1"
raw-window-handle = "=0.6.2"
