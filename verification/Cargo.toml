[package]
name = "simple_cad"
version = "0.1.0"
edition = "2021"
publish = false

[dependencies]
chrono = { version = "=0.4.45", default-features = false, features = ["clock"] }
dirs = "6"
eframe = { version = "=0.29.1", default-features = false, features = ["default_fonts", "glow"] }
reqwest = { version = "=0.12.28", default-features = false, features = ["json", "rustls-tls"] }
self-replace = "=1.5.0"
self_update = "=0.41.0"
serde = { version = "=1.0.229", features = ["derive"] }
tokio = { version = "=1.54.1", features = ["full"] }
winit = { version = "=0.30.13", default-features = false, features = ["x11"] }
