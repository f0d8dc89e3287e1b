[package]
name = "weather_notifier"
version = "0.1.0"
edition = "2021"
publish = false

[dependencies]
dotenv = "0.15"
notify-rust = "4"
reqwest = { version = "0.12", default-features = false, features = ["json"] }
serde = { version = "1", features = ["derive"] }
tokio = { version = "1", features = ["macros", "rt-multi-thread", "time"] }
