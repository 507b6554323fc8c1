[package]
name = "strahl"
version = "0.1.0"
edition = "2021"
publish = false

[dependencies]
image = { version = "=0.25.10", default-features = false, features = ["png"] }
gltf = "=1.4.1"
zip = { version = "=9.2.2", default-features = false, features = ["deflate"] }
toml = "=0.8.23"
serde = { version = "=1.0.229", features = ["derive"] }
anyhow = "=1.0.104"
clap = { version = "=4.6.7", features = ["derive"] }
log = "=0.4.35"
env_logger = "=0.11.11"

[dev-dependencies]
ash = { version = "0.38", default-features = false, features = ["std"] }
