[package]
name = "vs_toolbox"
version = "0.1.0"
edition = "2021"
publish = false

[dependencies]
rusqlite = { version = "*", features = ["bundled"] }
serde_json = "*"
urlparse = "*"
dirs-sys = "*"
serde = { version = "*", features = ["derive"] }
