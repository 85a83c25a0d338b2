[package]
name = "mimiq"
version = "0.1.0"
edition = "2021"
publish = false

[dependencies]
anyhow = "=1.0.104"
bytemuck = { version = "=1.25.2", features = ["derive", "const_zeroed"] }
cpal = "=0.18.2"
glam = { version = "=0.30.10", features = ["bytemuck"] }
glow = "=0.16.0"
glutin = "=0.32.3"
glutin-winit = "=0.5.0"
hound = "=3.5.1"
image = { version = "=0.25.10", default-features = false }
raw-window-handle = "=0.6.2"
tracing = "=0.1.44"
tracing-subscriber = { version = "=0.3.23", features = ["env-filter"] }
web-time = "=1.1.0"
winit = "=0.30.13"
