[package]
name = "skim_core"
version = "0.1.0"
edition = "2021"
publish = false

[dependencies]
unicode-segmentation = "1"
arboard = { version = "3", default-features = false }
dirs = "*"
serde = { version = "1", features = ["derive"] }
toml = "*"
swift-bridge = "0.1"
