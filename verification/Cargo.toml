[package]
name = "anim_pipeline"
version = "0.1.0"
edition = "2021"
publish = false

[dependencies]
glam = "*"
rand = "0.8"
bytemuck = { version = "*", features = ["derive"] }
