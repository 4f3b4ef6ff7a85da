[package]
name = "tow"
version = "0.1.0"
edition = "2021"
publish = false

[dependencies]
cfg-if = "1"
console_error_panic_hook = "0.1"
console_log = "1"
dotenv = "0.15"
env_logger = "0.11"
log = "0.4"
pollster = "0.3"
wasm-bindgen = "0.2"
web-sys = { version = "0.3", features = ["Document", "Element", "Window"] }
wgpu = "23"
winit = "0.30"
