[package]
name = "todo_app"
version = "0.1.0"
edition = "2021"
publish = false

[dependencies]
rusqlite = { version = "0.32", features = ["bundled"] }
chrono = "0.4"
eframe = { version = "0.31", default-features = false, features = ["default_fonts", "glow", "x11"] }
