[package]
name = "dirhist"
version = "0.1.0"
edition = "2021"
publish = false

[dependencies]
color-eyre = "0.6"
crossterm = "0.28"
log = "0.4"
ratatui = "0.29"
rusqlite = "0.32"
serde = { version = "1", features = ["derive"] }
