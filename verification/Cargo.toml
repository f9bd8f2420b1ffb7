[package]
name = "termgif"
version = "0.1.0"
edition = "2021"
publish = false

[dependencies]
anyhow = "=1.0.104"
clap = { version = "=4.6.7", features = ["derive"] }
crossterm = "=0.27.0"
image = { version = "=0.24.9", default-features = false, features = ["gif"] }
log = "=0.4.34"
pretty_env_logger = "=0.5.0"
rayon = "=1.12.0"

[dev-dependencies]
colored = "=2.0.4"
