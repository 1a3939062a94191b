[package]
name = "paced_pipeline"
version = "0.1.0"
edition = "2021"
publish = false

[dependencies]
anyhow = "=1.0.104"
ctrlc = "=3.5.2"

[dev-dependencies]
nix = { version = "=0.31.3", default-features = false, features = ["signal"] }
