[package]
name = "gpu_shell"
version = "0.1.0"
edition = "2021"
publish = false

[dependencies]
wgpu = { version = "23", default-features = false, features = ["wgsl", "webgl"] }
winit = { version = "0.30", default-features = false, features = ["rwh_06", "x11", "wayland", "wayland-dlopen"] }
egui = { version = "0.30", default-features = false, features = ["default_fonts"] }
egui-wgpu = { version = "0.30", default-features = false }
egui-winit = { version = "0.30", default-features = false, features = ["wayland", "x11"] }
egui_plot = { version = "0.30", default-features = false }
catppuccin-egui = { version = "=5.7.0", default-features = false, features = ["egui30"] }
pollster = "=0.3.0"
log = "0.4"
env_logger = { version = "0.11", default-features = false }
bytemuck = "1"
cfg-if = "1"
console_error_panic_hook = "0.1"
console_log = "1"
wasm-bindgen = "0.2"
web-sys = { version = "0.3", features = ["Document", "Window", "Element", "HtmlCanvasElement"] }
