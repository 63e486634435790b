[package]
name = "mcp_bridge"
version = "0.1.0"
edition = "2021"
publish = false

[dependencies]
image = { version = "*", default-features = false, features = ["png", "jpeg"] }
base64 = "*"
serde = { version = "*", features = ["derive"] }
thiserror = "*"
