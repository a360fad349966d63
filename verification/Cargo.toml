[package]
name = "configure_semantic_release_manifest"
version = "0.1.0"
edition = "2021"
publish = false

[dependencies]
clap = { version = "4", features = ["derive"] }
env_logger = "*"
find-semantic-release-config = "*"
log = "0.4"
serde = { version = "1", features = ["derive"] }
serde_json = "1"
thiserror = "*"
