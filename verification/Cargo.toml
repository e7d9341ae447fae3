[package]
name = "lcmp_core"
version = "0.1.0"
edition = "2021"
publish = false

[dependencies]
serde_json = "1"
serde = { version = "1", features = ["derive"] }
symphonia = { version = "0.5", features = ["mp3", "aac", "isomp4"] }
rubato = "0.14"
cpal = "0.15"
rusqlite = { version = "0.29", features = ["bundled"] }
id3 = "1"
metaflac = "0.2"
walkdir = "2"
tokio = { version = "1", features = ["rt"] }
