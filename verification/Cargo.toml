[package]
name = "aerox_5_tray"
version = "0.1.0"
edition = "2021"
publish = false

[dependencies]
clap = { version = "=4.6.7", features = ["derive"] }
dirs = "=7.0.0"
glib = "=0.22.10"
gtk4 = "=0.11.5"
hidapi = "=2.6.7"
ksni = { version = "=0.3.7", features = ["blocking"] }
notify-rust = "=4.19.0"
serde = { version = "=1.0.229", features = ["derive"] }
toml = "=1.2.1"
