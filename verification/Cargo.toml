[package]
name = "dplife"
version = "0.1.0"
edition = "2021"
publish = false

[dependencies]
array-init = "=2.1.0"
imgui = "=0.11.0"
imgui-windows-d3d12-renderer = "=0.1.1"
imgui-winit-support = "=0.11.0"
palette = "=0.7.7"
rand = "=0.9.5"
vek = "=0.17.2"
windows = { version = "=0.54.0", features = ["Win32_Foundation", "Win32_Graphics_Direct3D", "Win32_Graphics_Direct3D12", "Win32_Graphics_Dxgi", "Win32_Graphics_Dxgi_Common", "Win32_Security", "Win32_System_Threading"] }
winit = { version = "=0.27.5", default-features = false, features = ["x11"] }
