[package]
name = "gurka"
version = "1.0.0"
edition = "2021"
publish = false

[dependencies]
chrono = "0.4"
toml = "0.8"
reqwest = { version = "0.12", features = ["json"] }
serde = { version = "1", features = ["derive"] }
tokio = { version = "1", features = ["macros", "rt-multi-thread"] }
