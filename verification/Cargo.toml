[package]
name = "mob_behavior"
version = "0.1.0"
edition = "2021"
publish = false

[dependencies]
bonsai-bt = "*"
godot = "*"
serde = { version = "1", features = ["derive"] }
