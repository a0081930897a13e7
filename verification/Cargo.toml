[package]
name = "ocr_tools"
version = "0.1.0"
edition = "2021"
publish = false

[dependencies]
shellexpand = "3"
anyhow = "1"
arboard = { version = "3", default-features = false }
chrono = { version = "0.4", default-features = false, features = ["clock"] }
confy = "*"
directories = "*"
dirs = "*"
eframe = { version = "0.31", default-features = false, features = ["default_fonts", "glow", "x11"] }
egui_extras = { version = "0.31", default-features = false, features = ["image"] }
image = { version = "0.25", default-features = false, features = ["png", "jpeg"] }
rfd = { version = "0.15", default-features = false, features = ["xdg-portal", "tokio"] }
rusqlite = { version = "*", features = ["bundled"] }
serde = { version = "1", features = ["derive"] }
