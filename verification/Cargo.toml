[package]
name = "clippit_gpt"
version = "0.1.0"
edition = "2021"
publish = false

[dependencies]
tokio = { version = "1", features = ["sync", "rt-multi-thread", "macros", "time"] }
rand = "0.8"
serde = { version = "1", features = ["derive"] }
serde_yaml = "0.9"
egui = "0.27"
egui_extras = "0.27"
image = { version = "0.24", default-features = false, features = ["png"] }
env_logger = { version = "0.10", default-features = false }
openai_dive = "0.3"
