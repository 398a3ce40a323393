[package]
name = "brains"
version = "0.1.0"
edition = "2021"
publish = false

[dependencies]
rand = "=0.7.3"
libm = "=0.2.16"
bytemuck = "=1.25.2"
serde = { version = "1", features = ["derive"] }
serde_json = "1"
