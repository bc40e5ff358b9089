[package]
name = "time_progress"
version = "0.1.0"
edition = "2021"
publish = false

[dependencies]
chrono = "0.4"
pancurses = "*"
reqwest = { version = "*", features = ["blocking", "json"] }
reqwest_mock = "*"
serde = { version = "1", features = ["derive"] }
serde_json = "1"
