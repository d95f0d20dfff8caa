[package]
name = "cosmolith"
version = "0.1.0"
edition = "2021"
publish = false

[dependencies]
clap = { version = "=4.6.7", features = ["derive"] }
hyprland = "=0.3.13"
niri-ipc = "=26.4.0"
serde = { version = "=1.0.229", features = ["derive"] }
serde_json = "=1.0.151"
swayipc = "=4.0.0"
zbus = "=5.19.0"
