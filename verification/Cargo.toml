[package]
name = "voice_session"
version = "0.1.0"
edition = "2021"
publish = false

[dependencies]
tokio = { version = "1", features = ["macros", "rt-multi-thread", "time"] }
reqwest = { version = "0.12", default-features = false, features = ["json"] }
serde_json = "1"
rusqlite = { version = "0.31", features = ["bundled"] }
dotenv = "0.15"
