[package]
name = "notes_tui"
version = "0.1.0"
edition = "2021"
publish = false

[dependencies]
anyhow = "1"
chrono = { version = "=0.4.24", default-features = false, features = ["clock", "serde", "std"] }
serde = { version = "1", features = ["derive"] }
serde_json = "1"
termion = "1.5"
tui = { version = "0.19", default-features = false, features = ["termion"] }
