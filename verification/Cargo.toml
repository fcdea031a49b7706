[package]
name = "wolfplayer"
version = "0.1.0"
edition = "2021"
publish = false

[dependencies]
clap = { version = "4", features = ["derive"] }
rusqlite = "*"
serde_json = "1"
tokio = { version = "1", features = ["rt", "process", "time", "io-util"] }
