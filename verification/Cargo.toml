[package]
name = "mecha_wayland"
version = "0.1.0"
edition = "2021"
publish = false

[dependencies]
anyhow = "=1.0.104"
bytemuck = { version = "=1.25.2", features = ["derive"] }
gbm = { version = "=0.18.0", default-features = false }
glam = { version = "=0.34.2", features = ["bytemuck"] }
glow = "=0.18.0"
khronos-egl = { version = "=6.0.0", features = ["dynamic"] }
png = "=0.18.1"
taffy = "=0.9.2"
tracing = "=0.1.44"
