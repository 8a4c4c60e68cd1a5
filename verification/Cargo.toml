[package]
name = "aura_ctrl"
version = "0.1.0"
edition = "2021"
publish = false

[dependencies]
log = "*"
rusb = "*"
serde = { version = "1", features = ["derive"] }
serde_json = "*"
sysfs-class = "*"
toml = "*"
