[package]
name = "tray_core"
version = "0.1.0"
edition = "2021"
publish = false

[dependencies]
ab_glyph = "*"
serde = { version = "*", features = ["derive"] }
system-idle-time = "*"
tokio = { version = "*", default-features = false, features = ["sync", "time", "rt", "macros"] }
