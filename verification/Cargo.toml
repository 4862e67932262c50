[package]
name = "playlist_pages"
version = "0.1.0"
edition = "2021"
publish = false

[dependencies]
clap = { version = "4", features = ["derive"] }
serde = "1"
serde_derive = "1"
serde_json = "1"
