[package]
name = "engine"
version = "0.1.0"
edition = "2021"
publish = false

[dependencies]
uuid = { version = "=1.27.0", features = ["v4"] }
image = { version = "=0.25.10", default-features = false }
gltf = "=1.4.1"
serde = { version = "=1.0.229", features = ["derive"] }
serde_json = "=1.0.151"
glam = "=0.34.1"
nalgebra-glm = "=0.21.0"
