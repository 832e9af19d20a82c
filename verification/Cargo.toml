[package]
name = "score_four"
version = "0.1.0"
edition = "2021"
publish = false

[dependencies]
bevy = { version = "=0.5.0", default-features = false, features = ["bevy_wgpu", "bevy_winit", "render", "x11"] }
bevy_mod_picking = "=0.4.0"
bevy-orbit-controls = "=2.0.0"
spirv-std-macros = "=0.4.0"
