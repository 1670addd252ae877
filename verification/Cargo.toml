[package]
name = "vrm1_face_tracking"
version = "0.1.0"
edition = "2021"
publish = false

[dependencies]
directories = "*"
serde = { version = "*", features = ["derive"] }
serde_json = "*"
toml = "*"
crossbeam-channel = "*"
thiserror = "*"

[dev-dependencies]
glam = "*"
