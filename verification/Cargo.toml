[package]
name = "soulboard"
version = "0.1.0"
edition = "2021"
publish = false

[dependencies]
serde = { version = "=1.0.229", features = ["derive"] }
serde_json = "=1.0.154"
tokio = { version = "=1.54.1", features = ["rt-multi-thread", "net", "sync"] }
axum = { version = "=0.8.9", default-features = false, features = ["ws", "tokio", "http1"] }
image = { version = "=0.25.10", default-features = false, features = ["png"] }
iced = { version = "=0.13.1", default-features = false, features = ["tiny-skia"] }
rfd = { version = "0.15", default-features = false, features = ["xdg-portal", "tokio"] }
