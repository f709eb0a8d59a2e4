[package]
name = "sil"
version = "0.1.0"
edition = "2021"
publish = false

[dependencies]
chrono = "0.4"
chrono-tz = "*"
rand = { version = "0.8", features = ["small_rng"] }
tiny-skia = "*"
semver = "1"
serde = { version = "1", features = ["derive"] }
serde_json = "1"
tokio = { version = "1", features = ["macros", "rt-multi-thread", "time", "sync"] }
futures = "0.3"
tokio-tungstenite = "*"
reqwest = { version = "*", default-features = false }
xdg = "*"
clap = { version = "4", features = ["derive"] }
