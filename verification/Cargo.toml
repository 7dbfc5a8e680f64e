[package]
name = "daedalus"
version = "0.1.0"
edition = "2021"
publish = false

[dependencies]
uuid = { version = "=1.27.0", features = ["v4"] }
image = "=0.24.9"
gltf = "=1.4.1"
glam = "=0.24.2"
winit = "=0.28.7"
shipyard = { version = "=0.6.5", features = ["thread_local"] }
serde_json = "=1.0.151"
metal = "=0.27.0"
cocoa = "=0.25.0"
objc = "=0.2.7"
core-graphics-types = "=0.1.3"
