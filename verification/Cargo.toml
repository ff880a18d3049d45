[package]
name = "geoseed"
version = "0.1.0"
edition = "2021"
publish = false

[dependencies]
chrono = { version = "0.4", features = ["serde"] }
clap = { version = "4", features = ["derive"] }
csv = "1"
elasticsearch = "8.5.0-alpha.1"
image = { version = "0.24", default-features = false, features = ["bmp", "gif", "ico", "jpeg", "png", "tiff", "webp"] }
serde = { version = "1", features = ["derive"] }
serde_json = "1"
tokio = { version = "1", features = ["macros", "rt-multi-thread"] }
toml = "0.8"
zip = { version = "0.6", default-features = false, features = ["deflate"] }
