[package]
name = "smolinator"
version = "0.1.0"
edition = "2021"
publish = false

[dependencies]
base64 = "=0.13.1"
image = "=0.24.9"
gltf = { version = "=1.4.1", features = ["extras"] }
clap = { version = "=4.6.7", features = ["derive"] }
