[package]
name = "context_menus"
version = "0.1.0"
edition = "2021"
publish = false

[dependencies]
egui = "0.21"
serde = { version = "1", features = ["derive"] }
