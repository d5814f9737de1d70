[package]
name = "rendering_core"
version = "0.1.0"
edition = "2021"
publish = false

[dependencies]
libloading = "*"
log = "*"
simple_logger = "*"
vulkanalia = { version = "*", features = ["libloading", "window"] }
winit = { version = "0.29", default-features = false, features = ["rwh_06", "x11"] }
