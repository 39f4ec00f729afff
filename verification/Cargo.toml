[package]
name = "unhaunter"
version = "0.1.0"
edition = "2021"
publish = false

[dependencies]
serde = { version = "1", features = ["derive"] }
serde_json = "1"
rand = "0.8"
anyhow = "1"
thiserror = "1"
enum-iterator = "2"
ordered-float = "4"
tiled = { version = "0.12", default-features = false }
glob = "0.3"
walkdir = "2"
fastapprox = "0.3"
