[package]
name = "rendercore"
version = "0.1.0"
edition = "2021"
publish = false

[dependencies]
glam = { version = "=0.33.12", features = ["bytemuck"] }
tobj = "=4.0.5"
genmesh = "=0.6.2"
bytemuck = "=1.25.2"
