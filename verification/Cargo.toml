[package]
name = "sfind"
version = "0.1.0"
edition = "2021"
publish = false

[dependencies]
app_dirs = "=1.2.1"
colored_json = "=5.0.0"
edit = "=0.1.5"
prettytable-rs = "=0.10.0"
rustforce = "=0.2.2"
serde = { version = "=1.0.229", features = ["derive"] }
serde_json = "=1.0.151"
tokio = { version = "=1.53.2", features = ["rt-multi-thread"] }
toml = "=1.1.7"
