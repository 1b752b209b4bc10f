[package]
name = "primitive_mesh"
version = "0.1.0"
edition = "2021"
publish = false

[dependencies]
hexasphere = "=19.0.0"
bevy_math = { version = "=0.20.0", default-features = false, features = ["std"] }
