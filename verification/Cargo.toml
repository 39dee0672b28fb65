[package]
name = "xivcrafter"
version = "0.1.0"
edition = "2021"
publish = false

[dependencies]
crossterm = "0.25"
dirs = "5"
enigo = "0.0.14"
serde = { version = "1", features = ["derive"] }
serde_json = "1"
tui = "0.19"
