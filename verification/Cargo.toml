[package]
name = "orchestrator_studio"
version = "0.1.0"
edition = "2021"
publish = false

[dependencies]
sha2 = "0.10"
dashmap = "6"
ahash = "0.8"
serde = { version = "1", features = ["derive"] }
serde_json = "1"
thiserror = "2"
anyhow = "1"
reqwest = { version = "0.12", default-features = false, features = ["blocking", "json"] }
egui = "*"
eframe = { version = "*", default-features = false, features = ["default_fonts", "glow", "x11"] }
tokio = { version = "1", features = ["rt", "macros", "time", "sync"] }
futures = "0.3"
tracing = "0.1"
tracing-subscriber = { version = "0.3", features = ["env-filter", "fmt"] }
