[package]
name = "gfx_core"
version = "0.1.0"
edition = "2021"
publish = false

[dependencies]
anyhow = "1"
ash = "0.38"
ash-window = "0.13"
bytemuck = "1"
log = "0.4"
raw-window-handle = "0.6"
simplelog = "0.12"
winit = "0.30"
