[package]
name = "file_hosting"
version = "0.1.0"
edition = "2021"
publish = false

[dependencies]
anyhow = "1"
eframe = { version = "0.26", default-features = false, features = ["default_fonts", "glow", "persistence"] }
egui = "0.26"
egui_extras = "0.26"
humantime = "2"
prost = "0.12"
rfd = { version = "0.14", default-features = false, features = ["xdg-portal", "tokio"] }
serde = { version = "1", features = ["derive"] }
serde_json = "1"
tokio = { version = "1", features = ["macros", "rt-multi-thread", "sync"] }
tonic = "0.11"
